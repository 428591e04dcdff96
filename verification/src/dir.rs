use vstd::prelude::*;

use crate::db_error;
use crate::sql::{integer_at, is_value_error, row_integer, row_text, text_at, Row, SqlValue};
use crate::text::{concat2, str_eq};
use crate::validate::{
    check_length, check_opt_length, check_range, check_slug, failures_view, finish,
    is_slug, length_failures, opt_length_failures, opt_view, range_failures, slug_failures,
    FieldError,
};

verus! {

/// The most directories a bucket may hold.
pub const MAX_DIRS: i32 = 1000;

/// The largest page of a directory listing.
pub const MAX_PER_PAGE: i32 = 50;

/// The kind of a directory.
#[derive(PartialEq, Eq, Structural, Clone, Copy, Debug)]
pub enum DirType {
    Photos,
    Videos,
    Documents,
}

/// The name of a directory kind.
pub open spec fn dir_type_name(t: DirType) -> Seq<char> {
    match t {
        DirType::Photos => "photos"@,
        DirType::Videos => "videos"@,
        DirType::Documents => "documents"@,
    }
}

/// The directory kind a name denotes, if any.
pub open spec fn dir_type_named(name: Seq<char>) -> Option<DirType> {
    if name == "photos"@ {
        Some(DirType::Photos)
    } else if name == "videos"@ {
        Some(DirType::Videos)
    } else if name == "documents"@ {
        Some(DirType::Documents)
    } else {
        None
    }
}

impl DirType {
    /// The kind that `value` names; an error naming the value otherwise.
    pub fn try_from(value: &str) -> (r: Result<DirType, String>)
        ensures
            match dir_type_named(value@) {
                Some(t) => r == Ok::<DirType, String>(t),
                None => r matches Err(msg) && msg@ == "Invalid dir type: "@ + value@,
            },
    {
        if str_eq(value, "photos") {
            Ok(DirType::Photos)
        } else if str_eq(value, "videos") {
            Ok(DirType::Videos)
        } else if str_eq(value, "documents") {
            Ok(DirType::Documents)
        } else {
            Err(concat2("Invalid dir type: ", value))
        }
    }

    /// The name of this kind.
    pub fn to_string(&self) -> (r: String)
        ensures
            r@ == dir_type_name(*self),
    {
        match self {
            DirType::Photos => "photos".to_owned(),
            DirType::Videos => "videos".to_owned(),
            DirType::Documents => "documents".to_owned(),
        }
    }
}

/// The names of the directory kinds, as paths and requests spell them.
pub proof fn lemma_dir_type_names()
    ensures
        dir_type_name(DirType::Photos) == "photos"@,
        dir_type_name(DirType::Videos) == "videos"@,
        dir_type_name(DirType::Documents) == "documents"@,
        dir_type_named("photos"@) == Some(DirType::Photos),
        dir_type_named("videos"@) == Some(DirType::Videos),
        dir_type_named("documents"@) == Some(DirType::Documents),
{
    reveal_strlit("photos");
    reveal_strlit("videos");
    reveal_strlit("documents");
    assert("photos"@[0] != "videos"@[0]);
    assert("photos"@.len() != "documents"@.len());
    assert("videos"@.len() != "documents"@.len());
}

/// A kind's name denotes that kind, and a name that denotes a kind is that
/// kind's name.
pub proof fn lemma_dir_type_name_round_trip(t: DirType, name: Seq<char>)
    ensures
        dir_type_named(dir_type_name(t)) == Some(t),
        dir_type_named(name) matches Some(u) ==> dir_type_name(u) == name,
{
    reveal_strlit("photos");
    reveal_strlit("videos");
    reveal_strlit("documents");
    assert("photos"@[0] != "videos"@[0]);
    assert("photos"@.len() != "documents"@.len());
    assert("videos"@.len() != "documents"@.len());
}

/// Where a directory lives and what it is.
#[derive(Clone, Debug, PartialEq, Eq)]
pub struct DirMeta {
    pub bucket_name: String,
    pub org_id: String,
    pub dir_type: DirType,
    pub dir_name: String,
}

/// A directory as the service hands it out.
#[derive(Clone, Debug, PartialEq, Eq)]
pub struct DirDto {
    pub id: String,
    pub bucket_id: String,
    pub name: String,
    pub label: String,
    pub file_count: i32,
    pub created_at: i64,
    pub updated_at: i64,
}

/// A directory as it is stored.
#[derive(Clone, Debug, PartialEq, Eq)]
pub struct Dir {
    pub id: String,
    pub bucket_id: String,
    pub name: String,
    pub label: String,
    pub file_count: i32,
    pub created_at: i64,
    pub updated_at: i64,
}

/// The stored form of a directory.
pub open spec fn stored_dir(dto: DirDto) -> Dir {
    Dir {
        id: dto.id,
        bucket_id: dto.bucket_id,
        name: dto.name,
        label: dto.label,
        file_count: dto.file_count,
        created_at: dto.created_at,
        updated_at: dto.updated_at,
    }
}

/// The served form of a stored directory.
pub open spec fn served_dir(dir: Dir) -> DirDto {
    DirDto {
        id: dir.id,
        bucket_id: dir.bucket_id,
        name: dir.name,
        label: dir.label,
        file_count: dir.file_count,
        created_at: dir.created_at,
        updated_at: dir.updated_at,
    }
}

impl From<DirDto> for Dir {
    fn from(dto: DirDto) -> (r: Dir) {
        Dir {
            id: dto.id,
            bucket_id: dto.bucket_id,
            name: dto.name,
            label: dto.label,
            file_count: dto.file_count,
            created_at: dto.created_at,
            updated_at: dto.updated_at,
        }
    }
}

impl vstd::std_specs::convert::FromSpecImpl<DirDto> for Dir {
    open spec fn obeys_from_spec() -> bool {
        true
    }

    open spec fn from_spec(dto: DirDto) -> Dir {
        stored_dir(dto)
    }
}

impl From<Dir> for DirDto {
    fn from(dir: Dir) -> (r: DirDto) {
        DirDto {
            id: dir.id,
            bucket_id: dir.bucket_id,
            name: dir.name,
            label: dir.label,
            file_count: dir.file_count,
            created_at: dir.created_at,
            updated_at: dir.updated_at,
        }
    }
}

impl vstd::std_specs::convert::FromSpecImpl<Dir> for DirDto {
    open spec fn obeys_from_spec() -> bool {
        true
    }

    open spec fn from_spec(dir: Dir) -> DirDto {
        served_dir(dir)
    }
}

/// The stored and the served forms of a directory convert into each other
/// without loss.
pub proof fn lemma_dir_round_trip(dto: DirDto, dir: Dir)
    ensures
        served_dir(stored_dir(dto)) == dto,
        stored_dir(served_dir(dir)) == dir,
{
}

/// The directory that a stored row holds, when its columns have the expected
/// types: id, bucket id, name, label, file count, creation and update times.
/// The file count keeps the low 32 bits of the stored integer.
pub open spec fn dir_in_row(row: Row) -> Option<DirDto> {
    if text_at(row, 0) is Some && text_at(row, 1) is Some && text_at(row, 2) is Some && text_at(
        row,
        3,
    ) is Some && integer_at(row, 4) is Some && integer_at(row, 5) is Some && integer_at(row, 6) is Some {
        Some(
            DirDto {
                id: text_at(row, 0)->0,
                bucket_id: text_at(row, 1)->0,
                name: text_at(row, 2)->0,
                label: text_at(row, 3)->0,
                file_count: integer_at(row, 4)->0 as i32,
                created_at: integer_at(row, 5)->0,
                updated_at: integer_at(row, 6)->0,
            },
        )
    } else {
        None
    }
}

impl DirDto {
    /// Reads a directory from a result row.
    pub fn from_row(row: &Row) -> (r: Result<DirDto, db_error::Error>)
        ensures
            match dir_in_row(*row) {
                Some(d) => r == Ok::<DirDto, db_error::Error>(d),
                None => r matches Err(e) && is_value_error(e),
            },
            r is Ok <==> ((*row).values@.len() >= 7 && (*row).values@[0] is Text && (*row).values@[1] is Text && (*row).values@[2] is Text && (*row).values@[3] is Text && (*row).values@[4] is Integer && (*row).values@[5] is Integer && (*row).values@[6] is Integer),
            r matches Ok(v) ==> ((*row).values@[0] == SqlValue::Text(v.id) && (*row).values@[1] == SqlValue::Text(v.bucket_id) && (*row).values@[2] == SqlValue::Text(v.name) && (*row).values@[3] == SqlValue::Text(v.label) && (exists|n: i64| (*row).values@[4] == SqlValue::Integer(n) && v.file_count == n as i32) && (*row).values@[5] == SqlValue::Integer(v.created_at) && (*row).values@[6] == SqlValue::Integer(v.updated_at)),
    {
        let id = row_text(row, 0)?;
        let bucket_id = row_text(row, 1)?;
        let name = row_text(row, 2)?;
        let label = row_text(row, 3)?;
        let count = row_integer(row, 4)?;
        let file_count = count as i32;
        let created_at = row_integer(row, 5)?;
        let updated_at = row_integer(row, 6)?;
        Ok(DirDto { id, bucket_id, name, label, file_count, created_at, updated_at })
    }
}

/// The data to create a directory.
#[derive(Clone, Debug, PartialEq, Eq)]
pub struct NewDir {
    pub name: String,
    pub label: String,
}

/// The data to change a directory.
#[derive(Clone, Debug, PartialEq, Eq)]
pub struct UpdateDir {
    pub label: Option<String>,
}

/// The query of a directory listing.
#[derive(Clone, Debug, PartialEq, Eq)]
pub struct ListDirsParams {
    pub page: Option<i32>,
    pub per_page: Option<i32>,
    pub keyword: Option<String>,
}

/// The rules a new directory breaks, in field order.
pub open spec fn new_dir_failures(data: NewDir) -> Seq<(Seq<char>, Seq<char>)> {
    length_failures("name"@, data.name@, 1, 50) + slug_failures("name"@, data.name@)
        + length_failures("label"@, data.label@, 1, 60)
}

/// The rules a directory change breaks.
pub open spec fn update_dir_failures(data: UpdateDir) -> Seq<(Seq<char>, Seq<char>)> {
    opt_length_failures("label"@, opt_view(data.label), 1, 60)
}

/// The rules a directory listing query breaks, in field order.
pub open spec fn list_dirs_failures(data: ListDirsParams) -> Seq<(Seq<char>, Seq<char>)> {
    range_failures("page"@, data.page, 1, 1000) + range_failures("per_page"@, data.per_page, 1, 50)
        + opt_length_failures("keyword"@, opt_view(data.keyword), 0, 50)
}

impl NewDir {
    /// Checks the name (1 to 50 characters, a slug) and the label (1 to 60 characters).
    pub fn validate(&self) -> (r: Result<(), Vec<FieldError>>)
        ensures
            r is Ok <==> new_dir_failures(*self).len() == 0,
            r matches Err(e) ==> failures_view(e@) == new_dir_failures(*self),
    {
        let mut errs: Vec<FieldError> = Vec::new();
        check_length(&mut errs, "name", self.name.as_str(), 1, 50);
        check_slug(&mut errs, "name", self.name.as_str());
        check_length(&mut errs, "label", self.label.as_str(), 1, 60);
        assert(failures_view(errs@) =~= new_dir_failures(*self));
        finish(errs)
    }
}

impl UpdateDir {
    /// Checks the label, when given (1 to 60 characters).
    pub fn validate(&self) -> (r: Result<(), Vec<FieldError>>)
        ensures
            r is Ok <==> update_dir_failures(*self).len() == 0,
            r matches Err(e) ==> failures_view(e@) == update_dir_failures(*self),
    {
        let mut errs: Vec<FieldError> = Vec::new();
        check_opt_length(&mut errs, "label", &self.label, 1, 60);
        assert(failures_view(errs@) =~= update_dir_failures(*self));
        finish(errs)
    }
}

impl ListDirsParams {
    /// Checks the page (1 to 1000), the page size (1 to 50) and the keyword
    /// (at most 50 characters), each when given.
    pub fn validate(&self) -> (r: Result<(), Vec<FieldError>>)
        ensures
            r is Ok <==> list_dirs_failures(*self).len() == 0,
            r matches Err(e) ==> failures_view(e@) == list_dirs_failures(*self),
    {
        let mut errs: Vec<FieldError> = Vec::new();
        check_range(&mut errs, "page", self.page, 1, 1000);
        check_range(&mut errs, "per_page", self.per_page, 1, 50);
        check_opt_length(&mut errs, "keyword", &self.keyword, 0, 50);
        assert(failures_view(errs@) =~= list_dirs_failures(*self));
        finish(errs)
    }
}


/// A directory is read from a row whose first seven columns are four texts and
/// three integers: id, bucket id, name and label from columns 0 to 3, the
/// file count from column 4, the creation time from column 5 and the time of
/// the last change from column 6.
pub proof fn lemma_dir_row_columns(row: Row)
    ensures
        dir_in_row(row) is Some <==> (row.values@.len() >= 7 && row.values@[0] is Text && row.values@[1] is Text && row.values@[2] is Text && row.values@[3] is Text && row.values@[4] is Integer && row.values@[5] is Integer && row.values@[6] is Integer),
        dir_in_row(row) matches Some(v) ==> (row.values@[0] == SqlValue::Text(v.id) && row.values@[1] == SqlValue::Text(v.bucket_id) && row.values@[2] == SqlValue::Text(v.name) && row.values@[3] == SqlValue::Text(v.label) && (exists|n: i64| row.values@[4] == SqlValue::Integer(n) && v.file_count == n as i32) && row.values@[5] == SqlValue::Integer(v.created_at) && row.values@[6] == SqlValue::Integer(v.updated_at)),
{
}


/// The rules of directory data, by their bounds: a new directory needs a
/// slug name of 1 to 50 characters and a label of 1 to 60; a change needs a
/// label of 1 to 60 characters when it gives one; a listing accepts pages 1 to
/// 1000, page sizes 1 to 50 and keywords of at most 50 characters.
pub proof fn lemma_dir_rules(n: NewDir, u: UpdateDir, l: ListDirsParams)
    ensures
        new_dir_failures(n).len() == 0 <==> (1 <= n.name@.len() <= 50 && is_slug(n.name@) && 1
            <= n.label@.len() <= 60),
        update_dir_failures(u).len() == 0 <==> (match u.label { Some(v) => 1 <= v@.len() && v@.len() <= 60, None => true }),
        list_dirs_failures(l).len() == 0 <==> ((match l.page { Some(v) => 1 <= v && v <= 1000, None => true }) && (match l.per_page { Some(v) => 1 <= v && v <= 50, None => true })
            && (match l.keyword { Some(v) => 0 <= v@.len() && v@.len() <= 50, None => true })),
{
}

} // verus!
