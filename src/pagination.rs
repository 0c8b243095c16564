//! Pagination parameters: validation of untrusted input, and what a valid
//! page and page size resolve to.

use vstd::prelude::*;

use crate::decimal::{
    decimal_of, decimal_string, lemma_parse_decimal_round_trip, parse_u32, parse_u32_spec,
};
use crate::error::ApiError;
use crate::models::PaginationMeta;

verus! {

/// The largest page size a client may ask for.
pub const MAX_PAGE_SIZE: u32 = 100;

/// The page size used when none is given.
pub const DEFAULT_PAGE_SIZE: u32 = 10;

/// The page used when none is given.
pub const DEFAULT_PAGE: u32 = 1;

pub open spec fn page_not_a_number() -> Seq<char> {
    "Page number must be a valid positive number"@
}

pub open spec fn per_page_not_a_number() -> Seq<char> {
    "Items per page must be a valid positive number"@
}

pub open spec fn page_is_zero() -> Seq<char> {
    "Page number must be greater than 0"@
}

pub open spec fn per_page_is_zero() -> Seq<char> {
    "Items per page must be greater than 0"@
}

/// The refusal of an oversized page, naming the maximum.
pub open spec fn per_page_too_large() -> Seq<char> {
    "Items per page cannot exceed "@ + decimal_of(MAX_PAGE_SIZE as nat)
}

/// A parameter read as a number, or its default when it is absent.
pub open spec fn read_or(raw: Option<Seq<char>>, default: u32) -> Option<u32> {
    match raw {
        Some(s) => parse_u32_spec(s),
        None => Some(default),
    }
}

/// The outcome of validation: the page and page size, or the message of the
/// first check that fails. `page` is read before `per_page`, and the bounds
/// are checked only once both have been read.
pub open spec fn validation_spec(page: Option<Seq<char>>, per_page: Option<Seq<char>>) -> Result<
    (u32, u32),
    Seq<char>,
> {
    match (read_or(page, DEFAULT_PAGE), read_or(per_page, DEFAULT_PAGE_SIZE)) {
        (None, _) => Err(page_not_a_number()),
        (Some(_), None) => Err(per_page_not_a_number()),
        (Some(p), Some(n)) => {
            if p == 0 {
                Err(page_is_zero())
            } else if n == 0 {
                Err(per_page_is_zero())
            } else if n > MAX_PAGE_SIZE {
                Err(per_page_too_large())
            } else {
                Ok((p, n))
            }
        },
    }
}

/// The raw, untrusted query parameters; either may be absent or malformed.
#[derive(Debug, Clone, PartialEq, Eq)]
pub struct PaginationParams {
    pub page: Option<String>,
    pub per_page: Option<String>,
}

fn validation_error(message: &str) -> (r: ApiError)
    ensures
        r matches ApiError::ValidationError(m) && m@ == message@,
{
    ApiError::ValidationError(String::from_str(message))
}

fn read_param(raw: &Option<String>, default: u32) -> (r: Option<u32>)
    ensures
        r == read_or(raw.deep_view(), default),
{
    match raw {
        Some(s) => parse_u32(s.as_str()),
        None => Some(default),
    }
}

impl PaginationParams {
    /// The outcome of validating these parameters.
    pub open spec fn outcome(&self) -> Result<(u32, u32), Seq<char>> {
        validation_spec(self.page.deep_view(), self.per_page.deep_view())
    }

    /// Reads and checks the page and page size.
    pub fn validate(&self) -> (r: Result<(u32, u32), ApiError>)
        ensures
            match self.outcome() {
                Ok(v) => r == Ok::<(u32, u32), ApiError>(v),
                Err(m) => r matches Err(ApiError::ValidationError(e)) && e@ == m,
            },
    {
        let page = match read_param(&self.page, DEFAULT_PAGE) {
            Some(p) => p,
            None => {
                return Err(validation_error("Page number must be a valid positive number"));
            },
        };
        let per_page = match read_param(&self.per_page, DEFAULT_PAGE_SIZE) {
            Some(n) => n,
            None => {
                return Err(validation_error("Items per page must be a valid positive number"));
            },
        };
        if page == 0 {
            return Err(validation_error("Page number must be greater than 0"));
        }
        if per_page == 0 {
            return Err(validation_error("Items per page must be greater than 0"));
        }
        if per_page > MAX_PAGE_SIZE {
            let mut m = String::from_str("Items per page cannot exceed ");
            let max = decimal_string(MAX_PAGE_SIZE);
            m.append(max.as_str());
            return Err(ApiError::ValidationError(m));
        }
        Ok((page, per_page))
    }

    /// Parameters that spell out `page` and `per_page` in decimal.
    pub fn from_values(page: u32, per_page: u32) -> (r: PaginationParams)
        ensures
            r.page.deep_view() == Some(decimal_of(page as nat)),
            r.per_page.deep_view() == Some(decimal_of(per_page as nat)),
    {
        PaginationParams { page: Some(decimal_string(page)), per_page: Some(decimal_string(per_page)) }
    }
}

impl Default for PaginationParams {
    /// The defaults written out: page 1, page size 10.
    fn default() -> (r: PaginationParams)
        ensures
            r.page.deep_view() == Some(decimal_of(DEFAULT_PAGE as nat)),
            r.per_page.deep_view() == Some(decimal_of(DEFAULT_PAGE_SIZE as nat)),
    {
        PaginationParams::from_values(DEFAULT_PAGE, DEFAULT_PAGE_SIZE)
    }
}

/// The refusal of an oversized page size reads "Items per page cannot exceed 100".
pub proof fn lemma_too_large_message()
    ensures
        per_page_too_large() == "Items per page cannot exceed 100"@,
{
    reveal_strlit("Items per page cannot exceed ");
    reveal_strlit("Items per page cannot exceed 100");
    assert(decimal_of(10) =~= seq!['1', '0']) by {
        reveal_with_fuel(decimal_of, 2);
    }
    assert(decimal_of(100) =~= seq!['1', '0', '0']) by {
        reveal_with_fuel(decimal_of, 2);
    }
    assert(per_page_too_large() =~= "Items per page cannot exceed 100"@);
}

/// Once the page reads as a valid page, any page size above the maximum is
/// refused with the message that names the maximum.
pub proof fn lemma_oversized_page_size_rejected(page: Option<Seq<char>>, per_page: Seq<char>)
    requires
        read_or(page, DEFAULT_PAGE) matches Some(p) && p >= 1,
        parse_u32_spec(per_page) matches Some(n) && n > MAX_PAGE_SIZE,
    ensures
        validation_spec(page, Some(per_page)) == Err::<(u32, u32), Seq<char>>(
            "Items per page cannot exceed 100"@,
        ),
{
    lemma_too_large_message();
}

/// A page of 0 is refused as not greater than 0, once the page size reads as
/// a number; a page size of 0 likewise, once the page reads as a valid page.
pub proof fn lemma_zero_rejected(page: Option<Seq<char>>, per_page: Option<Seq<char>>)
    ensures
        read_or(page, DEFAULT_PAGE) == Some(0u32) && read_or(per_page, DEFAULT_PAGE_SIZE) is Some
            ==> validation_spec(page, per_page) == Err::<(u32, u32), Seq<char>>(page_is_zero()),
        (read_or(page, DEFAULT_PAGE) matches Some(p) && p >= 1) && read_or(per_page, DEFAULT_PAGE_SIZE)
            == Some(0u32) ==> validation_spec(page, per_page) == Err::<(u32, u32), Seq<char>>(
            per_page_is_zero(),
        ),
{
}

/// An absent page reads as page 1 and an absent page size as 10; with both
/// absent, or both written out as those defaults, validation succeeds.
pub proof fn lemma_defaults(page: Option<Seq<char>>, per_page: Option<Seq<char>>)
    ensures
        validation_spec(None, per_page) == validation_spec(
            Some(decimal_of(DEFAULT_PAGE as nat)),
            per_page,
        ),
        validation_spec(page, None) == validation_spec(
            page,
            Some(decimal_of(DEFAULT_PAGE_SIZE as nat)),
        ),
        validation_spec(None, None) == Ok::<(u32, u32), Seq<char>>((1u32, 10u32)),
        validation_spec(
            Some(decimal_of(DEFAULT_PAGE as nat)),
            Some(decimal_of(DEFAULT_PAGE_SIZE as nat)),
        ) == Ok::<(u32, u32), Seq<char>>((1u32, 10u32)),
{
    lemma_parse_decimal_round_trip(DEFAULT_PAGE);
    lemma_parse_decimal_round_trip(DEFAULT_PAGE_SIZE);
}

/// Validation is a function of the parameters' text, and validating what it
/// accepted, written back out in decimal, accepts the same page and page size.
pub proof fn lemma_validation_idempotent(a: PaginationParams, b: PaginationParams)
    requires
        a.page.deep_view() == b.page.deep_view(),
        a.per_page.deep_view() == b.per_page.deep_view(),
    ensures
        a.outcome() == b.outcome(),
        a.outcome() matches Ok(v) ==> validation_spec(
            Some(decimal_of(v.0 as nat)),
            Some(decimal_of(v.1 as nat)),
        ) == a.outcome(),
{
    if let Ok(v) = a.outcome() {
        lemma_parse_decimal_round_trip(v.0);
        lemma_parse_decimal_round_trip(v.1);
    }
}

/// A page and page size that passed validation: the page is at least 1 and
/// the page size lies in `1..=MAX_PAGE_SIZE`.
#[derive(Debug, Clone, Copy, PartialEq, Eq)]
pub struct ValidatedPagination {
    page: u32,
    per_page: u32,
}

/// The store query for one page.
#[derive(Debug, Clone, Copy, PartialEq, Eq)]
pub struct PageQuery {
    pub limit: u32,
    pub offset: u64,
}

/// The number of pages that `total_items` records fill, `per_page` to a
/// page: the ceiling of their quotient, 0 when there are no records, and at
/// most `u32::MAX`.
pub open spec fn total_pages_spec(total_items: i64, per_page: u32) -> u32 {
    if total_items <= 0 {
        0
    } else {
        let q = (total_items as int) / (per_page as int);
        let pages = if (total_items as int) % (per_page as int) == 0 {
            q
        } else {
            q + 1
        };
        if pages > u32::MAX {
            u32::MAX
        } else {
            pages as u32
        }
    }
}

/// Computes `total_pages_spec`.
pub fn total_pages(total_items: i64, per_page: u32) -> (r: u32)
    requires
        per_page >= 1,
    ensures
        r == total_pages_spec(total_items, per_page),
{
    if total_items <= 0 {
        return 0;
    }
    let size = per_page as i64;
    let q = total_items / size;
    if q >= u32::MAX as i64 {
        return u32::MAX;
    }
    if total_items % size == 0 {
        q as u32
    } else {
        (q + 1) as u32
    }
}

impl ValidatedPagination {
    #[verifier::type_invariant]
    spec fn in_bounds(self) -> bool {
        1 <= self.page && 1 <= self.per_page && self.per_page <= MAX_PAGE_SIZE
    }

    /// Validates `params`; this is the only way to obtain a value.
    pub fn from_params(params: &PaginationParams) -> (r: Result<ValidatedPagination, ApiError>)
        ensures
            match params.outcome() {
                Ok(v) => r matches Ok(p) && p@ == v,
                Err(m) => r matches Err(ApiError::ValidationError(e)) && e@ == m,
            },
    {
        match params.validate() {
            Ok((page, per_page)) => Ok(ValidatedPagination { page, per_page }),
            Err(e) => Err(e),
        }
    }

    pub fn page(&self) -> (r: u32)
        ensures
            r == self@.0,
            r >= 1,
    {
        proof {
            use_type_invariant(self);
        }
        self.page
    }

    pub fn per_page(&self) -> (r: u32)
        ensures
            r == self@.1,
            1 <= r <= MAX_PAGE_SIZE,
    {
        proof {
            use_type_invariant(self);
        }
        self.per_page
    }

    /// The store query: `limit` is the page size and `offset` skips the
    /// records of every earlier page.
    pub fn resolve(&self) -> (r: PageQuery)
        ensures
            r.limit == self@.1,
            r.offset == (self@.0 - 1) * self@.1,
    {
        let page = self.page() as u64;
        let size = self.per_page() as u64;
        assert((page - 1) * size <= u32::MAX * MAX_PAGE_SIZE) by (nonlinear_arith)
            requires
                1 <= page <= u32::MAX,
                size <= MAX_PAGE_SIZE,
        ;
        PageQuery { limit: self.per_page(), offset: (page - 1) * size }
    }

    /// Metadata of this page in a listing of `total_items` records.
    pub fn meta(&self, total_items: i64) -> (r: PaginationMeta)
        ensures
            r.current_page == self@.0,
            r.per_page == self@.1,
            r.total_items == total_items,
            r.total_pages == total_pages_spec(total_items, self@.1),
    {
        let per_page = self.per_page();
        PaginationMeta {
            current_page: self.page(),
            per_page,
            total_items,
            total_pages: total_pages(total_items, per_page),
        }
    }
}

impl View for ValidatedPagination {
    type V = (u32, u32);

    /// The page and the page size.
    closed spec fn view(&self) -> (u32, u32) {
        (self.page, self.per_page)
    }
}

/// The parameters a request carries, as the request pipeline receives them.
#[derive(Debug, Clone, PartialEq, Eq)]
pub struct Pagination(pub PaginationParams);

impl Pagination {
    /// The parameters found on a request, or the defaults where none were.
    pub fn from_found(found: Option<PaginationParams>) -> (r: Pagination)
        ensures
            found matches Some(p) ==> r.0 == p,
            found is None ==> r.0.page.deep_view() == Some(decimal_of(DEFAULT_PAGE as nat))
                && r.0.per_page.deep_view() == Some(decimal_of(DEFAULT_PAGE_SIZE as nat)),
    {
        match found {
            Some(p) => Pagination(p),
            None => Pagination(PaginationParams::default()),
        }
    }
}

} // verus!
