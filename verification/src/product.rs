//! The product catalog.
//!
//! A product is a tenant-scoped record with a price in integer cents, a
//! stock count and a soft-delete timestamp. Every monetary value in the
//! library is an integer count of cents.
//!
//! The listing filters (name search, price bounds, active flag), the
//! clamping of pagination parameters and the merge of a partial update
//! into an existing record are the catalog's rules, and are verified here;
//! the surrounding application only moves rows in and out of the store.

use vstd::prelude::*;
use vstd::string::StrSliceExecFns;
use crate::ids::Id;
use crate::pagination::PaginatedResponse;
use crate::text::{exec_folded_code, folded_code, seq_eq_ci};

verus! {

#[derive(Debug, Clone)]
pub struct Product {
    pub id: Id,
    pub tenant_id: Id,
    pub name: String,
    pub slug: String,
    pub short_description: Option<String>,
    pub description: Option<String>,
    /// Price in integer cents.
    pub price: i64,
    pub stock_quantity: i32,
    /// Attribute map carried opaquely as JSON text.
    pub attributes: Option<String>,
    pub is_active: bool,
    pub dt_created: i64,
    pub dt_updated: i64,
    pub dt_deleted: Option<i64>,
}

#[derive(Debug, Clone)]
pub struct CreateProductRequest {
    pub name: String,
    pub short_description: Option<String>,
    pub description: Option<String>,
    /// Price in integer cents.
    pub price: i64,
    pub stock_quantity: i32,
    pub attributes: Option<String>,
    pub is_active: bool,
}

#[derive(Debug, Clone)]
pub struct UpdateProductRequest {
    pub name: Option<String>,
    pub short_description: Option<String>,
    pub description: Option<String>,
    pub price: Option<i64>,
    pub stock_quantity: Option<i32>,
    pub attributes: Option<String>,
    pub is_active: Option<bool>,
}

#[derive(Debug, Clone)]
pub struct ProductResponse {
    pub id: Id,
    pub dt_created: i64,
    pub dt_updated: i64,
}

#[derive(Debug, Clone)]
pub struct ProductListParams {
    pub name: Option<String>,
    pub min_price: Option<i64>,
    pub max_price: Option<i64>,
    pub limit: Option<i64>,
    pub offset: Option<i64>,
    pub is_active: Option<bool>,
}

/// `needle` occurs in `hay` up to ASCII case, as the SQL `ILIKE
/// '%needle%'` filter reads it.
pub open spec fn contains_ci(hay: Seq<char>, needle: Seq<char>) -> bool {
    exists|k: int|
        0 <= k && k + needle.len() <= hay.len() && #[trigger] seq_eq_ci(
            hay.subrange(k, k + needle.len() as int),
            needle,
        )
}

/// Whether `needle` occurs in `hay` up to ASCII case.
pub fn chars_contain_ci(hay: &Vec<char>, needle: &Vec<char>) -> (r: bool)
    ensures
        r == contains_ci(hay@, needle@),
{
    let n: usize = hay.len();
    let m: usize = needle.len();
    if m > n {
        return false;
    }
    let mut k: usize = 0;
    while k <= n - m
        invariant
            m <= n,
            n == hay@.len(),
            m == needle@.len(),
            k <= n - m + 1,
            forall|k0: int|
                0 <= k0 < k ==> !#[trigger] seq_eq_ci(
                    hay@.subrange(k0, k0 + needle@.len() as int),
                    needle@,
                ),
        decreases n - m + 1 - k,
    {
        let mut j: usize = 0;
        let mut all_eq: bool = true;
        while j < m
            invariant
                m <= n,
                n == hay@.len(),
                m == needle@.len(),
                k + m <= n,
                j <= m,
                all_eq == (forall|j0: int|
                    0 <= j0 < j ==> folded_code(hay@[k + j0]) == folded_code(needle@[j0])),
            decreases m - j,
        {
            let hc = exec_folded_code(hay[k + j]);
            let nc = exec_folded_code(needle[j]);
            if hc != nc {
                all_eq = false;
                proof {
                    assert(folded_code(hay@[k + j as int]) != folded_code(needle@[j as int]));
                }
                j = m;
            } else {
                j = j + 1;
            }
        }
        if all_eq {
            proof {
                let sub = hay@.subrange(k as int, k + needle@.len() as int);
                assert(forall|i: int| 0 <= i < m ==> sub[i] == hay@[k + i]);
                assert(seq_eq_ci(sub, needle@));
            }
            return true;
        }
        proof {
            let sub = hay@.subrange(k as int, k + needle@.len() as int);
            assert(forall|i: int| 0 <= i < m ==> sub[i] == hay@[k + i]);
            let j_wit = choose|j0: int|
                0 <= j0 < m && folded_code(hay@[k + j0]) != folded_code(needle@[j0]);
            assert(!seq_eq_ci(sub, needle@));
        }
        k = k + 1;
    }
    proof {
        assert(forall|k0: int|
            0 <= k0 && k0 + needle@.len() <= hay@.len() ==> !#[trigger] seq_eq_ci(
                hay@.subrange(k0, k0 + needle@.len() as int),
                needle@,
            ));
    }
    false
}

/// The whitespace characters the library recognises when it asks whether
/// a filter string is blank.
pub open spec fn is_space(c: char) -> bool {
    c == ' ' || c == '\t' || c == '\n' || c == '\r' || c == '\u{0b}' || c == '\u{0c}'
}

/// A string is blank when every character is whitespace.
pub open spec fn is_blank(s: Seq<char>) -> bool {
    forall|i: int| 0 <= i < s.len() ==> is_space(s[i])
}

fn exec_is_space(c: char) -> (r: bool)
    ensures
        r == is_space(c),
{
    c == ' ' || c == '\t' || c == '\n' || c == '\r' || c == '\u{0b}' || c == '\u{0c}'
}

/// Whether the string holds only whitespace.
pub fn str_is_blank(s: &str) -> (r: bool)
    ensures
        r == is_blank(s@),
{
    let n: usize = s.unicode_len();
    let mut i: usize = 0;
    while i < n
        invariant
            i <= n,
            n == s@.len(),
            forall|j: int| 0 <= j < i ==> is_space(s@[j]),
        decreases n - i,
    {
        if !exec_is_space(s.get_char(i)) {
            return false;
        }
        i = i + 1;
    }
    true
}

impl ProductListParams {
    /// The page size actually used: the requested limit, defaulting to 20
    /// and clamped to 1..=100.
    pub open spec fn effective_limit(self) -> int {
        let l = match self.limit {
            Some(l) => l as int,
            None => 20,
        };
        if l < 1 {
            1
        } else if l > 100 {
            100
        } else {
            l
        }
    }

    /// The offset actually used: the requested offset, defaulting to 0 and
    /// never negative.
    pub open spec fn effective_offset(self) -> int {
        let o = match self.offset {
            Some(o) => o as int,
            None => 0,
        };
        if o < 0 {
            0
        } else {
            o
        }
    }

    pub fn limit_value(&self) -> (r: i64)
        ensures
            r == self.effective_limit(),
    {
        let l: i64 = match self.limit {
            Some(l) => l,
            None => 20,
        };
        if l < 1 {
            1
        } else if l > 100 {
            100
        } else {
            l
        }
    }

    pub fn offset_value(&self) -> (r: i64)
        ensures
            r == self.effective_offset(),
    {
        let o: i64 = match self.offset {
            Some(o) => o,
            None => 0,
        };
        if o < 0 {
            0
        } else {
            o
        }
    }

    /// The name filter counts only when it is present and not blank.
    pub open spec fn active_name_filter(self) -> Option<String> {
        match self.name {
            Some(n) => if is_blank(n@) {
                None
            } else {
                Some(n)
            },
            None => None,
        }
    }
}

/// Whether a product passes the listing filters: not soft-deleted, name
/// containing the searched text up to ASCII case, price within the given
/// cent bounds, and the active flag equal to the requested one.
pub open spec fn product_matches(p: Product, params: ProductListParams) -> bool {
    &&& p.dt_deleted is None
    &&& match params.active_name_filter() {
        Some(n) => contains_ci(p.name@, n@),
        None => true,
    }
    &&& match params.min_price {
        Some(min) => p.price >= min,
        None => true,
    }
    &&& match params.max_price {
        Some(max) => p.price <= max,
        None => true,
    }
    &&& match params.is_active {
        Some(a) => p.is_active == a,
        None => true,
    }
}

/// Whether a product passes the listing filters.
pub fn product_matches_params(p: &Product, params: &ProductListParams) -> (r: bool)
    ensures
        r == product_matches(*p, *params),
{
    if p.dt_deleted.is_some() {
        return false;
    }
    let name_ok: bool = match &params.name {
        Some(n) => {
            if str_is_blank(n.as_str()) {
                true
            } else {
                let hay = crate::text::str_chars(p.name.as_str());
                let needle = crate::text::str_chars(n.as_str());
                chars_contain_ci(&hay, &needle)
            }
        },
        None => true,
    };
    if !name_ok {
        return false;
    }
    let min_ok: bool = match params.min_price {
        Some(min) => p.price >= min,
        None => true,
    };
    if !min_ok {
        return false;
    }
    let max_ok: bool = match params.max_price {
        Some(max) => p.price <= max,
        None => true,
    };
    if !max_ok {
        return false;
    }
    match params.is_active {
        Some(a) => p.is_active == a,
        None => true,
    }
}

/// The listing filter, as a predicate over products.
pub open spec fn matches_pred(params: ProductListParams) -> spec_fn(Product) -> bool {
    |p: Product| product_matches(p, params)
}

pub struct ProductService;

impl ProductService {
    /// The listing a repository query answers: the products that pass the
    /// filters, in their given order, cut to one page; the count is the
    /// number of matches before paging.
    pub fn list_page(products: Vec<Product>, params: &ProductListParams) -> (r: PaginatedResponse<
        Product,
    >)
        requires
            products@.len() <= i64::MAX,
        ensures
            ({
                let filtered = products@.filter(matches_pred(*params));
                let offset = params.effective_offset();
                let limit = params.effective_limit();
                let avail: int = if filtered.len() > offset {
                    filtered.len() - offset
                } else {
                    0
                };
                let shown: int = if avail > limit {
                    limit
                } else {
                    avail
                };
                &&& r.count == filtered.len()
                &&& r.limit == limit
                &&& r.offset == offset
                &&& r.results@.len() == shown
                &&& forall|t: int|
                    0 <= t < r.results@.len() ==> r.results@[t] == filtered[offset + t]
            }),
    {
        let limit = params.limit_value();
        let offset = params.offset_value();
        let ghost pred = matches_pred(*params);
        let mut matched: Vec<Product> = Vec::new();
        let n: usize = products.len();
        let mut i: usize = 0;
        proof {
            assert(products@.take(0int).filter(pred) =~= Seq::<Product>::empty()) by {
                reveal(Seq::filter);
            }
        }
        while i < n
            invariant
                i <= n,
                n == products@.len(),
                matched@ =~= products@.take(i as int).filter(pred),
                pred == matches_pred(*params),
            decreases n - i,
        {
            let ghost pre = products@.take(i as int);
            let p = &products[i];
            proof {
                assert(products@.take(i as int + 1) =~= pre.push(products@[i as int]));
                pre.lemma_filter_push(products@[i as int], pred);
            }
            if product_matches_params(p, params) {
                matched.push(p.clone_record());
            }
            i = i + 1;
        }
        proof {
            assert(products@.take(n as int) =~= products@);
            products@.lemma_filter_len(pred);
        }
        let total: i64 = matched.len() as i64;
        let mut page: Vec<Product> = Vec::new();
        let mut j: usize = 0;
        let m: usize = matched.len();
        while j < m
            invariant
                j <= m,
                m == matched@.len(),
                m <= i64::MAX,
                offset == params.effective_offset(),
                limit == params.effective_limit(),
                page@.len() == (if j as int <= offset {
                    0int
                } else if j - offset <= limit {
                    j - offset
                } else {
                    limit as int
                }),
                forall|t: int| 0 <= t < page@.len() ==> page@[t] == matched@[offset + t],
            decreases m - j,
        {
            if (j as i64) >= offset && (page.len() as i64) < limit {
                page.push(matched[j].clone_record());
            }
            j = j + 1;
        }
        PaginatedResponse { count: total, results: page, limit, offset }
    }
}

impl Product {
    /// A field-for-field copy.
    pub fn clone_record(&self) -> (r: Product)
        ensures
            r == *self,
    {
        Product {
            id: self.id,
            tenant_id: self.tenant_id,
            name: self.name.clone(),
            slug: self.slug.clone(),
            short_description: clone_opt_string(&self.short_description),
            description: clone_opt_string(&self.description),
            price: self.price,
            stock_quantity: self.stock_quantity,
            attributes: clone_opt_string(&self.attributes),
            is_active: self.is_active,
            dt_created: self.dt_created,
            dt_updated: self.dt_updated,
            dt_deleted: self.dt_deleted,
        }
    }

    /// The record a creation request produces: the request's fields, the
    /// name doubling as the slug, and both timestamps set to `now`.
    pub fn from_request(id: Id, tenant_id: Id, request: CreateProductRequest, now: i64) -> (r:
        Product)
        ensures
            r.id == id,
            r.tenant_id == tenant_id,
            r.name@ == request.name@,
            r.slug@ == request.name@,
            r.short_description == request.short_description,
            r.description == request.description,
            r.price == request.price,
            r.stock_quantity == request.stock_quantity,
            r.attributes == request.attributes,
            r.is_active == request.is_active,
            r.dt_created == now,
            r.dt_updated == now,
            r.dt_deleted is None,
    {
        Product {
            id,
            tenant_id,
            name: request.name.clone(),
            slug: request.name,
            short_description: request.short_description,
            description: request.description,
            price: request.price,
            stock_quantity: request.stock_quantity,
            attributes: request.attributes,
            is_active: request.is_active,
            dt_created: now,
            dt_updated: now,
            dt_deleted: None,
        }
    }

    /// The record after a partial update: each given field replaces the
    /// old one, absent fields keep their value, the slug never changes,
    /// and `dt_updated` becomes `now`.
    pub fn apply_update(self, request: UpdateProductRequest, now: i64) -> (r: Product)
        ensures
            r.id == self.id,
            r.tenant_id == self.tenant_id,
            r.name == match request.name {
                Some(n) => n,
                None => self.name,
            },
            r.slug == self.slug,
            r.short_description == match request.short_description {
                Some(d) => Some(d),
                None => self.short_description,
            },
            r.description == match request.description {
                Some(d) => Some(d),
                None => self.description,
            },
            r.price == match request.price {
                Some(p) => p,
                None => self.price,
            },
            r.stock_quantity == match request.stock_quantity {
                Some(q) => q,
                None => self.stock_quantity,
            },
            r.attributes == match request.attributes {
                Some(a) => Some(a),
                None => self.attributes,
            },
            r.is_active == match request.is_active {
                Some(a) => a,
                None => self.is_active,
            },
            r.dt_created == self.dt_created,
            r.dt_updated == now,
            r.dt_deleted == self.dt_deleted,
    {
        Product {
            id: self.id,
            tenant_id: self.tenant_id,
            name: match request.name {
                Some(n) => n,
                None => self.name,
            },
            slug: self.slug,
            short_description: match request.short_description {
                Some(d) => Some(d),
                None => self.short_description,
            },
            description: match request.description {
                Some(d) => Some(d),
                None => self.description,
            },
            price: match request.price {
                Some(p) => p,
                None => self.price,
            },
            stock_quantity: match request.stock_quantity {
                Some(q) => q,
                None => self.stock_quantity,
            },
            attributes: match request.attributes {
                Some(a) => Some(a),
                None => self.attributes,
            },
            is_active: match request.is_active {
                Some(a) => a,
                None => self.is_active,
            },
            dt_created: self.dt_created,
            dt_updated: now,
            dt_deleted: self.dt_deleted,
        }
    }
}

/// A field-for-field copy of an optional string.
pub fn clone_opt_string(s: &Option<String>) -> (r: Option<String>)
    ensures
        r == *s,
{
    match s {
        Some(v) => Some(v.clone()),
        None => None,
    }
}

} // verus!
