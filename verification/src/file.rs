use vstd::prelude::*;

use crate::validate::{
    check_opt_length, check_range, failures_view, finish, opt_length_failures, opt_view,
    range_failures, FieldError,
};

verus! {

/// The largest page of a file listing.
pub const MAX_PER_PAGE: i32 = 50;

/// The most files a directory may hold.
pub const MAX_FILES: i32 = 1000;

/// A file as it is stored: `is_image` is 1 for images, and `img_versions`
/// lists the stored image versions separated by commas.
#[derive(Clone, Debug, PartialEq, Eq)]
pub struct FileObject {
    pub id: String,
    pub dir_id: String,
    pub name: String,
    pub filename: String,
    pub content_type: String,
    pub size: i64,
    pub is_image: i32,
    pub img_versions: Option<String>,
    pub img_taken_at: Option<i64>,
    pub created_at: i64,
    pub updated_at: i64,
}

/// An uploaded file waiting to be stored, with its local paths.
#[derive(Clone, Debug, PartialEq, Eq)]
pub struct FilePayload {
    pub upload_dir: String,
    pub name: String,
    pub filename: String,
    pub path: String,
    pub size: i64,
}

/// What the picture metadata of a photo says.
#[derive(Clone, Debug, PartialEq, Eq)]
pub struct PhotoExif {
    pub orientation: u32,
    pub img_taken_at: Option<i64>,
}

impl Default for PhotoExif {
    /// Upright, with no capture time.
    fn default() -> (r: PhotoExif)
        ensures
            r.orientation == 1,
            r.img_taken_at is None,
    {
        PhotoExif { orientation: 1, img_taken_at: None }
    }
}

/// The query of a file listing.
#[derive(Clone, Debug, PartialEq, Eq)]
pub struct ListFilesParams {
    pub page: Option<i32>,
    pub per_page: Option<i32>,
    pub keyword: Option<String>,
}

/// The rules a file listing query breaks, in field order.
pub open spec fn list_files_failures(data: ListFilesParams) -> Seq<(Seq<char>, Seq<char>)> {
    range_failures("page"@, data.page, 1, 1000) + range_failures("per_page"@, data.per_page, 1, 50)
        + opt_length_failures("keyword"@, opt_view(data.keyword), 0, 50)
}

impl ListFilesParams {
    /// Checks the page (1 to 1000), the page size (1 to 50) and the keyword
    /// (at most 50 characters), each when given.
    pub fn validate(&self) -> (r: Result<(), Vec<FieldError>>)
        ensures
            r is Ok <==> list_files_failures(*self).len() == 0,
            r matches Err(e) ==> failures_view(e@) == list_files_failures(*self),
    {
        let mut errs: Vec<FieldError> = Vec::new();
        check_range(&mut errs, "page", self.page, 1, 1000);
        check_range(&mut errs, "per_page", self.per_page, 1, 50);
        check_opt_length(&mut errs, "keyword", &self.keyword, 0, 50);
        assert(failures_view(errs@) =~= list_files_failures(*self));
        finish(errs)
    }
}


/// A file listing accepts pages 1 to 1000, page sizes 1 to 50 and keywords of
/// at most 50 characters.
pub proof fn lemma_file_listing_rules(l: ListFilesParams)
    ensures
        list_files_failures(l).len() == 0 <==> ((match l.page { Some(v) => 1 <= v && v <= 1000, None => true }) && (match l.per_page { Some(v) => 1 <= v && v <= 50, None => true })
            && (match l.keyword { Some(v) => 0 <= v@.len() && v@.len() <= 50, None => true })),
{
}

} // verus!
