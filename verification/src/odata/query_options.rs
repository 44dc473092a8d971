//! OData query options, rendered as a form-urlencoded query string.

use vstd::prelude::*;
use crate::odata::parameters::{opt_join, opt_num, utf8_pairs};
use crate::text::{join_strings, u64_to_string};
use crate::urlenc::{enc_pairs, encode_pairs, pairs_bytes};

verus! {

/// OData query options.
///
/// Like [`crate::odata::Parameters`], but each setter takes an `Option` so
/// an option can also be cleared, and there are no custom pairs. Rendering
/// order: `$select`, `$expand`, `$filter`, `$orderBy`, `$top`, `$skip`.
#[derive(Debug, Clone, Default)]
pub struct QueryOptions {
    /// `$select` fields, joined by `,`.
    pub select: Option<Vec<String>>,
    /// `$expand` fields, joined by `,`.
    pub expand: Option<Vec<String>>,
    /// `$filter` clauses, joined by ` and `.
    pub filter: Option<Vec<String>>,
    /// `$orderBy` clauses, joined by `,`.
    pub order_by: Option<Vec<String>>,
    /// `$top` limit.
    pub top: Option<u32>,
    /// `$skip` offset.
    pub skip: Option<u32>,
}

/// All key/value pairs of an option set, in rendering order.
pub open spec fn query_pairs(q: QueryOptions) -> Seq<(Seq<char>, Seq<char>)> {
    opt_join(q.select, "$select"@, ","@) + opt_join(q.expand, "$expand"@, ","@) + opt_join(
        q.filter,
        "$filter"@,
        " and "@,
    ) + opt_join(q.order_by, "$orderBy"@, ","@) + opt_num(q.top, "$top"@) + opt_num(
        q.skip,
        "$skip"@,
    )
}

impl QueryOptions {
    /// Create an option set with no options specified.
    pub fn new() -> (r: Self)
        ensures
            r.select.is_none(),
            r.expand.is_none(),
            r.filter.is_none(),
            r.order_by.is_none(),
            r.top.is_none(),
            r.skip.is_none(),
    {
        QueryOptions {
            select: None,
            expand: None,
            filter: None,
            order_by: None,
            top: None,
            skip: None,
        }
    }

    /// Set or clear the `$select` option.
    pub fn select(self, opt: Option<Vec<String>>) -> (r: Self)
        ensures
            r == (QueryOptions { select: opt, ..self }),
    {
        QueryOptions { select: opt, ..self }
    }

    /// Set or clear the `$expand` option.
    pub fn expand(self, opt: Option<Vec<String>>) -> (r: Self)
        ensures
            r == (QueryOptions { expand: opt, ..self }),
    {
        QueryOptions { expand: opt, ..self }
    }

    /// Set or clear the `$filter` option.
    pub fn filter(self, opt: Option<Vec<String>>) -> (r: Self)
        ensures
            r == (QueryOptions { filter: opt, ..self }),
    {
        QueryOptions { filter: opt, ..self }
    }

    /// Set or clear the `$orderBy` option.
    pub fn order_by(self, opt: Option<Vec<String>>) -> (r: Self)
        ensures
            r == (QueryOptions { order_by: opt, ..self }),
    {
        QueryOptions { order_by: opt, ..self }
    }

    /// Set or clear the `$top` option.
    pub fn top(self, opt: Option<u32>) -> (r: Self)
        ensures
            r == (QueryOptions { top: opt, ..self }),
    {
        QueryOptions { top: opt, ..self }
    }

    /// Set or clear the `$skip` option.
    pub fn skip(self, opt: Option<u32>) -> (r: Self)
        ensures
            r == (QueryOptions { skip: opt, ..self }),
    {
        QueryOptions { skip: opt, ..self }
    }

    /// Render the options as a form-urlencoded query string.
    #[verifier::rlimit(100)]
    pub fn to_string(&self) -> (r: String)
        ensures
            r@ == enc_pairs(utf8_pairs(query_pairs(*self))),
    {
        let mut options: Vec<(String, String)> = Vec::new();
        if let Some(items) = &self.select {
            options.push((String::from_str("$select"), join_strings(items, ",")));
        }
        if let Some(items) = &self.expand {
            options.push((String::from_str("$expand"), join_strings(items, ",")));
        }
        if let Some(items) = &self.filter {
            options.push((String::from_str("$filter"), join_strings(items, " and ")));
        }
        if let Some(items) = &self.order_by {
            options.push((String::from_str("$orderBy"), join_strings(items, ",")));
        }
        if let Some(n) = &self.top {
            options.push((String::from_str("$top"), u64_to_string(*n as u64)));
        }
        if let Some(n) = &self.skip {
            options.push((String::from_str("$skip"), u64_to_string(*n as u64)));
        }
        let r = encode_pairs(&options);
        proof {
            assert(pairs_bytes(options@) =~= utf8_pairs(query_pairs(*self)));
        }
        r
    }
}

} // verus!
