use vstd::prelude::*;

use crate::db_error;
use crate::sql::{integer_at, is_value_error, row_integer, row_text, text_at, Row, SqlValue};
use crate::validate::{
    check_length, check_opt_length, check_range, check_slug, failures_view, finish,
    is_slug, length_failures, opt_length_failures, opt_view, range_failures, slug_failures,
    FieldError,
};

verus! {

/// The most buckets a client may own.
pub const MAX_BUCKETS_PER_CLIENT: i32 = 50;

/// A bucket as the service hands it out.
#[derive(Clone, Debug, PartialEq, Eq)]
pub struct BucketDto {
    pub id: String,
    pub client_id: String,
    pub name: String,
    pub label: String,
    pub images_only: bool,
    pub created_at: i64,
}

/// A bucket as it is stored: `images_only` is 1 for true.
#[derive(Clone, Debug, PartialEq, Eq)]
pub struct Bucket {
    pub id: String,
    pub client_id: String,
    pub name: String,
    pub label: String,
    pub images_only: i32,
    pub created_at: i64,
}

impl From<BucketDto> for Bucket {
    fn from(dto: BucketDto) -> (r: Bucket) {
        Bucket {
            id: dto.id,
            client_id: dto.client_id,
            name: dto.name,
            label: dto.label,
            images_only: if dto.images_only {
                1
            } else {
                0
            },
            created_at: dto.created_at,
        }
    }
}

impl vstd::std_specs::convert::FromSpecImpl<BucketDto> for Bucket {
    open spec fn obeys_from_spec() -> bool {
        true
    }

    open spec fn from_spec(dto: BucketDto) -> Bucket {
        stored_bucket(dto)
    }
}

impl From<Bucket> for BucketDto {
    fn from(bucket: Bucket) -> (r: BucketDto) {
        BucketDto {
            id: bucket.id,
            client_id: bucket.client_id,
            name: bucket.name,
            label: bucket.label,
            images_only: bucket.images_only == 1,
            created_at: bucket.created_at,
        }
    }
}

impl vstd::std_specs::convert::FromSpecImpl<Bucket> for BucketDto {
    open spec fn obeys_from_spec() -> bool {
        true
    }

    open spec fn from_spec(bucket: Bucket) -> BucketDto {
        served_bucket(bucket)
    }
}

/// The stored form of a bucket.
pub open spec fn stored_bucket(dto: BucketDto) -> Bucket {
    Bucket {
        id: dto.id,
        client_id: dto.client_id,
        name: dto.name,
        label: dto.label,
        images_only: if dto.images_only {
            1
        } else {
            0
        },
        created_at: dto.created_at,
    }
}

/// The served form of a stored bucket.
pub open spec fn served_bucket(bucket: Bucket) -> BucketDto {
    BucketDto {
        id: bucket.id,
        client_id: bucket.client_id,
        name: bucket.name,
        label: bucket.label,
        images_only: bucket.images_only == 1,
        created_at: bucket.created_at,
    }
}

/// Storing a bucket and reading it back gives the same bucket.
pub proof fn lemma_bucket_dto_round_trip(dto: BucketDto)
    ensures
        served_bucket(stored_bucket(dto)) == dto,
{
}

/// A stored bucket survives a trip through the service form exactly when its
/// flag is 0 or 1.
pub proof fn lemma_bucket_row_round_trip(bucket: Bucket)
    ensures
        (stored_bucket(served_bucket(bucket)) == bucket) <==> (bucket.images_only == 0
            || bucket.images_only == 1),
{
}

/// The bucket that a stored row holds, when its columns have the expected types:
/// id, client id, name, label, images flag, creation time.
pub open spec fn bucket_in_row(row: Row) -> Option<BucketDto> {
    if text_at(row, 0) is Some && text_at(row, 1) is Some && text_at(row, 2) is Some && text_at(
        row,
        3,
    ) is Some && integer_at(row, 4) is Some && integer_at(row, 5) is Some {
        Some(
            BucketDto {
                id: text_at(row, 0)->0,
                client_id: text_at(row, 1)->0,
                name: text_at(row, 2)->0,
                label: text_at(row, 3)->0,
                images_only: integer_at(row, 4)->0 == 1,
                created_at: integer_at(row, 5)->0,
            },
        )
    } else {
        None
    }
}

impl BucketDto {
    /// Reads a bucket from a result row.
    pub fn from_row(row: &Row) -> (r: Result<BucketDto, db_error::Error>)
        ensures
            match bucket_in_row(*row) {
                Some(b) => r == Ok::<BucketDto, db_error::Error>(b),
                None => r matches Err(e) && is_value_error(e),
            },
            r is Ok <==> ((*row).values@.len() >= 6 && (*row).values@[0] is Text && (*row).values@[1] is Text && (*row).values@[2] is Text && (*row).values@[3] is Text && (*row).values@[4] is Integer && (*row).values@[5] is Integer),
            r matches Ok(v) ==> ((*row).values@[0] == SqlValue::Text(v.id) && (*row).values@[1] == SqlValue::Text(v.client_id) && (*row).values@[2] == SqlValue::Text(v.name) && (*row).values@[3] == SqlValue::Text(v.label) && v.images_only == ((*row).values@[4] == SqlValue::Integer(1)) && (*row).values@[5] == SqlValue::Integer(v.created_at)),
    {
        let id = row_text(row, 0)?;
        let client_id = row_text(row, 1)?;
        let name = row_text(row, 2)?;
        let label = row_text(row, 3)?;
        let images_only = row_integer(row, 4)? == 1;
        let created_at = row_integer(row, 5)?;
        Ok(BucketDto { id, client_id, name, label, images_only, created_at })
    }
}

/// The data to create a bucket.
#[derive(Clone, Debug, PartialEq, Eq)]
pub struct NewBucket {
    pub name: String,
    pub label: String,
    pub images_only: bool,
}

/// The data to change a bucket.
#[derive(Clone, Debug, PartialEq, Eq)]
pub struct UpdateBucket {
    pub label: Option<String>,
}

/// The query of a bucket listing.
#[derive(Clone, Debug, PartialEq, Eq)]
pub struct ListBucketsParams {
    pub page: Option<i32>,
    pub per_page: Option<i32>,
    pub keyword: Option<String>,
}

/// The rules a new bucket breaks, in field order.
pub open spec fn new_bucket_failures(data: NewBucket) -> Seq<(Seq<char>, Seq<char>)> {
    length_failures("name"@, data.name@, 1, 50) + slug_failures("name"@, data.name@)
        + length_failures("label"@, data.label@, 1, 60)
}

/// The rules a bucket change breaks.
pub open spec fn update_bucket_failures(data: UpdateBucket) -> Seq<(Seq<char>, Seq<char>)> {
    opt_length_failures("label"@, opt_view(data.label), 1, 60)
}

/// The rules a bucket listing query breaks, in field order.
pub open spec fn list_buckets_failures(data: ListBucketsParams) -> Seq<(Seq<char>, Seq<char>)> {
    range_failures("page"@, data.page, 1, 1000) + range_failures("per_page"@, data.per_page, 1, 50)
        + opt_length_failures("keyword"@, opt_view(data.keyword), 0, 50)
}

impl NewBucket {
    /// Checks the name (1 to 50 characters, a slug) and the label (1 to 60 characters).
    pub fn validate(&self) -> (r: Result<(), Vec<FieldError>>)
        ensures
            r is Ok <==> new_bucket_failures(*self).len() == 0,
            r matches Err(e) ==> failures_view(e@) == new_bucket_failures(*self),
    {
        let mut errs: Vec<FieldError> = Vec::new();
        check_length(&mut errs, "name", self.name.as_str(), 1, 50);
        check_slug(&mut errs, "name", self.name.as_str());
        check_length(&mut errs, "label", self.label.as_str(), 1, 60);
        assert(failures_view(errs@) =~= new_bucket_failures(*self));
        finish(errs)
    }
}

impl UpdateBucket {
    /// Checks the label, when given (1 to 60 characters).
    pub fn validate(&self) -> (r: Result<(), Vec<FieldError>>)
        ensures
            r is Ok <==> update_bucket_failures(*self).len() == 0,
            r matches Err(e) ==> failures_view(e@) == update_bucket_failures(*self),
    {
        let mut errs: Vec<FieldError> = Vec::new();
        check_opt_length(&mut errs, "label", &self.label, 1, 60);
        assert(failures_view(errs@) =~= update_bucket_failures(*self));
        finish(errs)
    }
}

impl ListBucketsParams {
    /// Checks the page (1 to 1000), the page size (1 to 50) and the keyword
    /// (at most 50 characters), each when given.
    pub fn validate(&self) -> (r: Result<(), Vec<FieldError>>)
        ensures
            r is Ok <==> list_buckets_failures(*self).len() == 0,
            r matches Err(e) ==> failures_view(e@) == list_buckets_failures(*self),
    {
        let mut errs: Vec<FieldError> = Vec::new();
        check_range(&mut errs, "page", self.page, 1, 1000);
        check_range(&mut errs, "per_page", self.per_page, 1, 50);
        check_opt_length(&mut errs, "keyword", &self.keyword, 0, 50);
        assert(failures_view(errs@) =~= list_buckets_failures(*self));
        finish(errs)
    }
}


/// A bucket is read from a row whose first six columns are four texts and two
/// integers: id, client id, name and label from columns 0 to 3, the images
/// flag from column 4 (set exactly when it holds 1) and the creation time
/// from column 5.
pub proof fn lemma_bucket_row_columns(row: Row)
    ensures
        bucket_in_row(row) is Some <==> (row.values@.len() >= 6 && row.values@[0] is Text && row.values@[1] is Text && row.values@[2] is Text && row.values@[3] is Text && row.values@[4] is Integer && row.values@[5] is Integer),
        bucket_in_row(row) matches Some(v) ==> (row.values@[0] == SqlValue::Text(v.id) && row.values@[1] == SqlValue::Text(v.client_id) && row.values@[2] == SqlValue::Text(v.name) && row.values@[3] == SqlValue::Text(v.label) && v.images_only == (row.values@[4] == SqlValue::Integer(1)) && row.values@[5] == SqlValue::Integer(v.created_at)),
{
}


/// The rules of bucket data, by their bounds: a new bucket needs a slug name
/// of 1 to 50 characters and a label of 1 to 60; a change needs a label of 1 to
/// 60 characters when it gives one; a listing accepts pages 1 to 1000, page
/// sizes 1 to 50 and keywords of at most 50 characters.
pub proof fn lemma_bucket_rules(n: NewBucket, u: UpdateBucket, l: ListBucketsParams)
    ensures
        new_bucket_failures(n).len() == 0 <==> (1 <= n.name@.len() <= 50 && is_slug(n.name@) && 1
            <= n.label@.len() <= 60),
        update_bucket_failures(u).len() == 0 <==> (match u.label { Some(v) => 1 <= v@.len() && v@.len() <= 60, None => true }),
        list_buckets_failures(l).len() == 0 <==> ((match l.page { Some(v) => 1 <= v && v <= 1000, None => true }) && (match l.per_page { Some(v) => 1 <= v && v <= 50, None => true })
            && (match l.keyword { Some(v) => 0 <= v@.len() && v@.len() <= 50, None => true })),
{
}

} // verus!
