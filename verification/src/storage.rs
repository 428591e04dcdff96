use vstd::prelude::*;

use crate::dir::{dir_type_name, DirMeta};
use crate::error::{status_of, Error};
use crate::text::{concat2, concat3, contains, occurs_at, occurs_in, starts_with};
use vstd::string::*;

verus! {

/// A file fetched from cloud storage into a local directory.
#[derive(Clone, Debug, PartialEq, Eq)]
pub struct DownloadedFile {
    pub upload_dir: String,
    pub name: String,
    pub filename: String,
    pub path: String,
    pub size: i64,
}

/// What to fetch from cloud storage and where to put it.
#[derive(Clone, Debug, PartialEq, Eq)]
pub struct DownloadRequest<'a> {
    pub bucket_name: &'a str,
    pub org_id: &'a str,
    pub dir_type: &'a str,
    pub dir_name: &'a str,
    pub version: &'a str,
    pub orig_filename: &'a str,
    pub new_filename: &'a str,
    pub upload_dir: &'a str,
}

/// What an upload address is asked for.
#[derive(Clone, Debug, PartialEq, Eq)]
pub struct UploadUrlRequest<'a> {
    pub bucket_name: &'a str,
    pub org_id: &'a str,
    pub dir_type: &'a str,
    pub dir_name: &'a str,
    pub version: &'a str,
    pub filename: &'a str,
    pub content_type: &'a str,
}

/// Whether a bucket name is already a full resource name.
pub open spec fn is_resource_name(name: Seq<char>) -> bool {
    occurs_at(name, "projects/"@, 0) && occurs_in(name, "/buckets/"@)
}

/// The full resource name of a bucket.
pub open spec fn resource_name_of(name: Seq<char>) -> Seq<char> {
    if is_resource_name(name) {
        name
    } else {
        "projects/_/buckets/"@ + name
    }
}

/// The full resource name of a bucket: a name that already starts with
/// `projects/` and holds `/buckets/` is kept, any other is placed under
/// `projects/_/buckets/`.
pub fn bucket_resource_name(bucket_name: &str) -> (r: String)
    ensures
        r@ == resource_name_of(bucket_name@),
{
    if starts_with(bucket_name, "projects/") && contains(bucket_name, "/buckets/") {
        return bucket_name.to_owned();
    }
    concat2("projects/_/buckets/", bucket_name)
}

/// Naming a bucket's resource twice changes nothing.
pub proof fn lemma_resource_name_idempotent(name: Seq<char>)
    ensures
        resource_name_of(resource_name_of(name)) == resource_name_of(name),
{
    if !is_resource_name(name) {
        let full = "projects/_/buckets/"@ + name;
        reveal_strlit("projects/_/buckets/");
        reveal_strlit("projects/");
        reveal_strlit("/buckets/");
        assert(full.subrange(0, 9) =~= "projects/"@);
        assert(full.subrange(10, 19) =~= "/buckets/"@);
        assert(occurs_at(full, "/buckets/"@, 10));
    }
}

/// The path of a stored object: organisation, directory kind, directory,
/// version and file name, separated by slashes.
pub open spec fn object_path_of(
    org_id: Seq<char>,
    dir_type: Seq<char>,
    dir_name: Seq<char>,
    version: Seq<char>,
    filename: Seq<char>,
) -> Seq<char> {
    org_id + "/"@ + dir_type + "/"@ + dir_name + "/"@ + version + "/"@ + filename
}

/// The path of a stored object.
pub fn object_path(
    org_id: &str,
    dir_type: &str,
    dir_name: &str,
    version: &str,
    filename: &str,
) -> (r: String)
    ensures
        r@ == object_path_of(org_id@, dir_type@, dir_name@, version@, filename@),
{
    let mut r = concat3(org_id, "/", dir_type);
    r.append("/");
    r.append(dir_name);
    r.append("/");
    r.append(version);
    r.append("/");
    r.append(filename);
    r
}

/// The path of a version of a file stored in a directory.
pub fn dir_object_path(dir: &DirMeta, version: &str, filename: &str) -> (r: String)
    ensures
        r@ == object_path_of(dir.org_id@, dir_type_name(dir.dir_type), dir.dir_name@, version@, filename@),
{
    let dir_type = dir.dir_type.to_string();
    object_path(dir.org_id.as_str(), dir_type.as_str(), dir.dir_name.as_str(), version, filename)
}

impl<'a> DownloadRequest<'a> {
    /// The path of the object that the request fetches: the version of the
    /// file under its new name.
    pub fn object_path(&self) -> (r: String)
        ensures
            r@ == object_path_of(self.org_id@, self.dir_type@, self.dir_name@, self.version@, self.new_filename@),
    {
        object_path(self.org_id, self.dir_type, self.dir_name, self.version, self.new_filename)
    }
}

impl<'a> UploadUrlRequest<'a> {
    /// The path of the object that the upload address writes.
    pub fn object_path(&self) -> (r: String)
        ensures
            r@ == object_path_of(self.org_id@, self.dir_type@, self.dir_name@, self.version@, self.filename@),
    {
        object_path(self.org_id, self.dir_type, self.dir_name, self.version, self.filename)
    }
}

/// The service error for a failed cloud call: a client-side status (400 to
/// 499) is a validation error with the cloud's text; any other status is a
/// cloud error with that text; with no status, the cloud error names the
/// attempted action first.
pub fn map_cloud_error(status: Option<u16>, text: &str, fallback: &str) -> (r: Error)
    ensures
        match status {
            Some(code) => if 400 <= code < 500 {
                r matches Error::Validation { msg } && msg@ == text@
            } else {
                r matches Error::Google { msg } && msg@ == text@
            },
            None => r matches Error::Google { msg } && msg@ == fallback@ + ": "@ + text@,
        },
        status_of(r) == (match status {
            Some(code) => if 400 <= code < 500 { 400u16 } else { 500u16 },
            None => 500u16,
        }),
{
    match status {
        Some(code) => {
            if 400 <= code && code < 500 {
                Error::Validation { msg: text.to_owned() }
            } else {
                Error::Google { msg: text.to_owned() }
            }
        },
        None => Error::Google { msg: concat3(fallback, ": ", text) },
    }
}

/// The service error for a failed bucket read.
pub fn read_bucket_error(status: Option<u16>, text: &str) -> (r: Error)
    ensures
        match status {
            Some(401) => r matches Error::Validation { msg } && msg@ == "Cloud Storage: Unauthorized"@,
            Some(403) => r matches Error::Validation { msg } && msg@ == "Cloud Storage: Forbidden"@,
            Some(404) => r matches Error::Validation { msg } && msg@ == "Cloud Storage: Bucket not found"@,
            Some(code) => if 400 <= code < 500 {
                r matches Error::Validation { msg } && msg@ == text@
            } else {
                r matches Error::Google { msg } && msg@ == text@
            },
            None => r matches Error::Google { msg } && msg@ == text@,
        },
        status_of(r) == (match status {
            Some(code) => if 400 <= code < 500 { 400u16 } else { 500u16 },
            None => 500u16,
        }),
{
    match status {
        Some(401) => Error::Validation { msg: "Cloud Storage: Unauthorized".to_owned() },
        Some(403) => Error::Validation { msg: "Cloud Storage: Forbidden".to_owned() },
        Some(404) => Error::Validation { msg: "Cloud Storage: Bucket not found".to_owned() },
        Some(code) => {
            if 400 <= code && code < 500 {
                Error::Validation { msg: text.to_owned() }
            } else {
                Error::Google { msg: text.to_owned() }
            }
        },
        None => Error::Google { msg: text.to_owned() },
    }
}

} // verus!
