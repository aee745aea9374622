//! The text and the parameters of the searches that list plants and plant
//! profiles page by page, optionally filtered by a part of the name.
//! The parameters are bound in this order: `$1` the limit, `$2` the offset,
//! then the owner where there is one, then the name pattern where there is one.

use vstd::prelude::*;

use crate::dto::PaginationDto;
use vstd::string::StringExecFns;

verus! {

/// The start of the search for a user's plants.
pub const PLANT_SEARCH_HEAD: &'static str = "SELECT * FROM plant WHERE belongs_to_user_id = $3 ";

/// The start of the search for plant profiles.
pub const PROFILE_SEARCH_HEAD: &'static str = "SELECT * FROM plant_profile ";

/// What filters by name, where the search has a query.
pub const NAME_CLAUSE: &'static str = "AND \"name\" like $3";

/// The end of both searches.
pub const PAGE_TAIL: &'static str = " LIMIT $1 OFFSET $2";

/// A search ready to run.
pub struct SearchQuery {
    pub sql: String,
    pub limit: i64,
    pub offset: i64,
    pub owner: Option<i32>,
    pub pattern: Option<String>,
}

/// The `like` pattern that matches every name holding `query`.
pub open spec fn contains_pattern_of(query: Seq<char>) -> Seq<char> {
    seq!['%'] + query + seq!['%']
}

/// The text of a search that starts with `head`, filtered by name or not.
pub open spec fn search_text(head: Seq<char>, filtered: bool) -> Seq<char> {
    if filtered {
        head + NAME_CLAUSE@ + PAGE_TAIL@
    } else {
        head + PAGE_TAIL@
    }
}

/// The search with the given start, page and owner, for the names that hold `query`.
pub open spec fn search_post(
    head: Seq<char>,
    query: Option<&str>,
    owner: Option<i32>,
    pagination: PaginationDto,
    r: SearchQuery,
) -> bool {
    &&& r.sql@ == search_text(head, query is Some)
    &&& r.limit == pagination.page_size
    &&& r.offset == pagination.page * pagination.page_size
    &&& r.owner == owner
    &&& match query {
        Some(q) => r.pattern matches Some(p) && p@ == contains_pattern_of(q@),
        None => r.pattern is None,
    }
}

/// The `like` pattern of names that hold `query`.
pub fn contains_pattern(query: &str) -> (p: String)
    ensures
        p@ == contains_pattern_of(query@),
        p@.len() == query@.len() + 2,
        p@[0] == '%',
        p@[p@.len() - 1] == '%',
        p@.subrange(1, query@.len() + 1int) == query@,
{
    let p = "%".to_string().concat(query).concat("%");
    proof {
        reveal_strlit("%");
        assert("%"@ == seq!['%']);
        lemma_contains_pattern_wraps_query(query@);
    }
    p
}

/// A name pattern is the query with one `%` in front and one behind: it
/// matches every name that holds the query anywhere.
pub proof fn lemma_contains_pattern_wraps_query(query: Seq<char>)
    ensures
        contains_pattern_of(query).len() == query.len() + 2,
        contains_pattern_of(query)[0] == '%',
        contains_pattern_of(query)[query.len() + 1int] == '%',
        contains_pattern_of(query).subrange(1, query.len() + 1int) == query,
{
    assert(contains_pattern_of(query).subrange(1, query.len() + 1int) =~= query);
}

fn search(head: &str, query: Option<&str>, owner: Option<i32>, pagination: &PaginationDto) -> (r: SearchQuery)
    requires
        i64::MIN <= pagination.page * pagination.page_size <= i64::MAX,
    ensures
        search_post(head@, query, owner, *pagination, r),
{
    let mut sql = head.to_string();
    let pattern = match query {
        Some(q) => {
            sql.append(NAME_CLAUSE);
            Some(contains_pattern(q))
        },
        None => None,
    };
    sql.append(PAGE_TAIL);
    SearchQuery { sql, limit: pagination.page_size, offset: pagination.offset(), owner, pattern }
}

/// The search for the plants of user `user_id` on the given page, filtered by
/// names that hold `query` where there is one.
pub fn search_plants(query: Option<&str>, user_id: i32, pagination: &PaginationDto) -> (r: SearchQuery)
    requires
        i64::MIN <= pagination.page * pagination.page_size <= i64::MAX,
    ensures
        search_post(PLANT_SEARCH_HEAD@, query, Some(user_id), *pagination, r),
{
    search(PLANT_SEARCH_HEAD, query, Some(user_id), pagination)
}

/// The search for plant profiles on the given page, filtered by names that
/// hold `query` where there is one.
pub fn search_profiles(query: Option<&str>, pagination: &PaginationDto) -> (r: SearchQuery)
    requires
        i64::MIN <= pagination.page * pagination.page_size <= i64::MAX,
    ensures
        search_post(PROFILE_SEARCH_HEAD@, query, None, *pagination, r),
{
    search(PROFILE_SEARCH_HEAD, query, None, pagination)
}

} // verus!
