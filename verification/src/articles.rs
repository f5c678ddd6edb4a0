use vstd::prelude::*;
use vstd::string::{StrSliceExecFns, StringExecFns};

use crate::domain::{UserID, Username};
use crate::error::{AppError, AppErrorView};
use crate::rules::username_ok;
use crate::translate::{constraint_matches, spec_on_constraint, on_constraint, DbFailure, TraceRecord};
use crate::validate::{spec_error_line, ErrView, ValidatePayload, ValidationError};

verus! {

/// Direction of one ordering key.
#[derive(Clone, Copy, Debug, PartialEq, Eq)]
pub enum SortingDirection {
    ASC,
    DESC,
}

impl SortingDirection {
    pub open spec fn spec_str(self) -> Seq<char> {
        match self {
            SortingDirection::ASC => "ASC"@,
            SortingDirection::DESC => "DESC"@,
        }
    }

    pub fn as_str(&self) -> (r: &str)
        ensures
            r@ == self.spec_str(),
    {
        match self {
            SortingDirection::ASC => "ASC",
            SortingDirection::DESC => "DESC",
        }
    }
}

/// One ordering key of the article listing.
#[derive(Clone, Copy, Debug, PartialEq, Eq)]
pub enum OrderBy {
    CreatedAt { created_at: SortingDirection },
    Username { username: SortingDirection },
}

impl OrderBy {
    /// The rendered key, e.g. `"created_at ASC"`.
    pub open spec fn spec_sql(self) -> Seq<char> {
        match self {
            OrderBy::CreatedAt { created_at } => "created_at "@ + created_at.spec_str(),
            OrderBy::Username { username } => "username "@ + username.spec_str(),
        }
    }

    pub fn as_sql(&self) -> (r: String)
        ensures
            r@ == self.spec_sql(),
    {
        match self {
            OrderBy::CreatedAt { created_at } => {
                let mut s = String::from_str("created_at ");
                s.append(created_at.as_str());
                s
            },
            OrderBy::Username { username } => {
                let mut s = String::from_str("username ");
                s.append(username.as_str());
                s
            },
        }
    }
}

/// Rule: a raw sorting direction is exactly `"ASC"` or `"DESC"`.
pub open spec fn order_dir_ok(s: Seq<char>) -> bool {
    s == "ASC"@ || s == "DESC"@
}

/// The failure `validate_order_by` collects.
pub open spec fn order_dir_err() -> ErrView {
    ErrView {
        field: "order_by"@,
        code: "invalid_sorting_direction"@,
        message: Some("Invalid Sorting Direction"@),
    }
}

pub fn validate_order_by(sorting_direction: &str) -> (r: Result<(), ValidationError>)
    ensures
        r is Ok <==> order_dir_ok(sorting_direction@),
        r matches Err(e) ==> e@ == order_dir_err(),
{
    let s = sorting_direction.to_owned();
    if s == String::from_str("ASC") || s == String::from_str("DESC") {
        Ok(())
    } else {
        Err(ValidationError::with_message(
            "order_by",
            "invalid_sorting_direction",
            "Invalid Sorting Direction",
        ))
    }
}

/// The rendered ordering keys joined with `", "`.
pub open spec fn spec_order_by_clause(items: Seq<OrderBy>) -> Seq<char>
    decreases items.len(),
{
    if items.len() == 0 {
        Seq::empty()
    } else if items.len() == 1 {
        items[0].spec_sql()
    } else {
        spec_order_by_clause(items.drop_last()) + ", "@ + items.last().spec_sql()
    }
}

/// Body of the article listing endpoint.
#[derive(Debug)]
pub struct ListArticlesPayload {
    pub offset: Option<u64>,
    pub limit: Option<u64>,
    pub author: Option<Username>,
    pub title: Option<String>,
    pub tag: Option<String>,
    pub order_by: Option<Vec<OrderBy>>,
}

/// The failure one bounded field of the listing collects.
pub open spec fn limit_err() -> ErrView {
    ErrView { field: "limit"@, code: "range"@, message: None }
}

pub open spec fn author_err() -> ErrView {
    ErrView { field: "author"@, code: "invalid_username"@, message: None }
}

pub open spec fn list_title_err() -> ErrView {
    ErrView { field: "title"@, code: "length"@, message: None }
}

pub open spec fn tag_err() -> ErrView {
    ErrView { field: "tag"@, code: "length"@, message: None }
}

pub open spec fn order_by_err() -> ErrView {
    ErrView { field: "order_by"@, code: "length"@, message: None }
}

impl ValidatePayload for ListArticlesPayload {
    open spec fn spec_errors(&self) -> Seq<ErrView> {
        (if self.limit matches Some(l) && l > 100 {
            seq![limit_err()]
        } else {
            Seq::empty()
        }) + (if self.author matches Some(a) && !username_ok(a.0@) {
            seq![author_err()]
        } else {
            Seq::empty()
        }) + (if self.title matches Some(t) && t@.len() < 3 {
            seq![list_title_err()]
        } else {
            Seq::empty()
        }) + (if self.tag matches Some(t) && t@.len() < 1 {
            seq![tag_err()]
        } else {
            Seq::empty()
        }) + (if self.order_by matches Some(v) && v@.len() < 1 {
            seq![order_by_err()]
        } else {
            Seq::empty()
        })
    }

    fn validate(&self) -> (r: Result<(), Vec<ValidationError>>) {
        let mut v: Vec<ValidationError> = Vec::new();
        if let Some(l) = &self.limit {
            if *l > 100 {
                v.push(ValidationError::new("limit", "range"));
            }
        }
        if let Some(a) = &self.author {
            let len = a.0.as_str().as_bytes().len();
            if len < 3 || len > 50 {
                v.push(ValidationError::new("author", "invalid_username"));
            }
        }
        if let Some(t) = &self.title {
            if t.as_str().unicode_len() < 3 {
                v.push(ValidationError::new("title", "length"));
            }
        }
        if let Some(t) = &self.tag {
            if t.as_str().unicode_len() < 1 {
                v.push(ValidationError::new("tag", "length"));
            }
        }
        if let Some(o) = &self.order_by {
            if o.len() < 1 {
                v.push(ValidationError::new("order_by", "length"));
            }
        }
        proof {
            assert(v.deep_view() =~= self.spec_errors());
        }
        if v.len() == 0 {
            Ok(())
        } else {
            Err(v)
        }
    }
}

impl ListArticlesPayload {
    /// The `ORDER BY` clause of the listing: the given keys joined with
    /// `", "`, or `"created_at DESC"` when none are given.
    pub fn format_order_by(&self) -> (r: String)
        ensures
            self.order_by is None ==> r@ == "created_at DESC"@,
            self.order_by matches Some(v) ==> r@ == spec_order_by_clause(v@),
    {
        match &self.order_by {
            None => String::from_str("created_at DESC"),
            Some(items) => {
                let mut r = String::new();
                let n = items.len();
                for i in 0..n
                    invariant
                        n == items@.len(),
                        r@ == spec_order_by_clause(items@.take(i as int)),
                {
                    if i > 0 {
                        r.append(", ");
                    }
                    let key = items[i].as_sql();
                    r.append(key.as_str());
                    proof {
                        assert(items@.take(i as int + 1).drop_last() =~= items@.take(i as int));
                        assert(items@.take(i as int + 1).last() == items@[i as int]);
                    }
                }
                proof {
                    assert(items@.take(n as int) =~= items@);
                }
                r
            },
        }
    }
}

/// Body of the article creation endpoint.
#[derive(Debug)]
pub struct CreateArticlePayload {
    pub title: String,
    pub text: String,
    pub tags: Option<Vec<String>>,
}

pub open spec fn title_err() -> ErrView {
    ErrView { field: "title"@, code: "length"@, message: None }
}

pub open spec fn text_err() -> ErrView {
    ErrView { field: "text"@, code: "length"@, message: None }
}

/// The failure the list-valued `tags` field collects; its path is the field
/// name `tags`, so the rendered line is prefixed `"tags: "`.
pub open spec fn tags_err() -> ErrView {
    ErrView { field: "tags"@, code: "length"@, message: None }
}

impl ValidatePayload for CreateArticlePayload {
    open spec fn spec_errors(&self) -> Seq<ErrView> {
        (if self.title@.len() < 3 {
            seq![title_err()]
        } else {
            Seq::empty()
        }) + (if self.text@.len() < 10 {
            seq![text_err()]
        } else {
            Seq::empty()
        }) + (if self.tags matches Some(t) && t@.len() < 1 {
            seq![tags_err()]
        } else {
            Seq::empty()
        })
    }

    fn validate(&self) -> (r: Result<(), Vec<ValidationError>>) {
        let mut v: Vec<ValidationError> = Vec::new();
        if self.title.as_str().unicode_len() < 3 {
            v.push(ValidationError::new("title", "length"));
        }
        if self.text.as_str().unicode_len() < 10 {
            v.push(ValidationError::new("text", "length"));
        }
        if let Some(t) = &self.tags {
            if t.len() < 1 {
                v.push(ValidationError::new("tags", "length"));
            }
        }
        proof {
            assert(v.deep_view() =~= self.spec_errors());
        }
        if v.len() == 0 {
            Ok(())
        } else {
            Err(v)
        }
    }
}

/// Body of the subscribe endpoint.
#[derive(Debug)]
pub struct SubscribePayload {
    pub user_id: UserID,
}

impl ValidatePayload for SubscribePayload {
    open spec fn spec_errors(&self) -> Seq<ErrView> {
        Seq::empty()
    }

    fn validate(&self) -> (r: Result<(), Vec<ValidationError>>) {
        Ok(())
    }
}

/// Gate before creating a subscription: a user cannot subscribe to himself.
pub fn subscribe_check(user_id: &UserID, target_user_id: &UserID) -> (r: Result<(), AppError>)
    ensures
        r is Ok <==> user_id.0@ != target_user_id.0@,
        r matches Err(e) ==> e@ == AppErrorView::BadRequest("User cannot subscribe to himself"@),
{
    if user_id.0 == target_user_id.0 {
        Err(AppError::BadRequest(String::from_str("User cannot subscribe to himself")))
    } else {
        Ok(())
    }
}

/// The domain error for a subscription whose target user does not exist.
pub fn author_missing_error(target_user_id: &UserID) -> (r: AppError)
    ensures
        r@ == AppErrorView::BadRequest("Given author id does not exist: "@ + target_user_id.0@),
{
    let mut m = String::from_str("Given author id does not exist: ");
    m.append(target_user_id.0.as_str());
    AppError::BadRequest(m)
}

/// Translates the persistence outcome of creating a subscription: a failure
/// on the `fk_author_id` constraint means the target user does not exist;
/// anything else collapses to `Internal` with one trace record.
pub fn translate_subscription_failure(r: Result<(), DbFailure>, target_user_id: &UserID) -> (res: (
    Result<(), AppError>,
    Option<TraceRecord>,
))
    ensures
        r is Ok ==> res.0 is Ok && res.1 is None,
        r matches Err(f) ==> {
            &&& res.0 matches Err(e) && e@ == spec_on_constraint(
                f@,
                "fk_author_id"@,
                AppErrorView::BadRequest("Given author id does not exist: "@ + target_user_id.0@),
            )
            &&& constraint_matches(f@, "fk_author_id"@) ==> res.1 is None
            &&& !constraint_matches(f@, "fk_author_id"@) ==> (res.1 matches Some(t) && t.context@
                == "fk_author_id"@ && t.cause@ == f@)
        },
{
    let mapped = author_missing_error(target_user_id);
    on_constraint(r, "fk_author_id", mapped)
}

/// Law: a list-valued field named `tags` that fails its rule collects a
/// failure whose path is `tags`, and the rendered line of that failure is
/// prefixed `"tags: "`.
pub proof fn lemma_tags_error_prefixed(p: CreateArticlePayload)
    ensures
        (p.tags matches Some(t) && t@.len() < 1) ==> p.spec_errors().last() == tags_err(),
        (p.tags matches Some(t) && t@.len() < 1) ==> p.spec_errors().len() > 0,
        spec_error_line(tags_err()).take(6) == "tags: "@,
{
    reveal_strlit("tags");
    reveal_strlit(": ");
    reveal_strlit("tags: ");
    reveal_strlit("length");
    assert(spec_error_line(tags_err()).take(6) =~= "tags: "@);
    if p.tags matches Some(t) && t@.len() < 1 {
        assert(p.spec_errors().last() == tags_err());
    }
}

} // verus!
