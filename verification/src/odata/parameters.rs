//! OData query parameters, rendered as a form-urlencoded query string.

use vstd::prelude::*;
use vstd::utf8::encode_utf8;
use crate::text::{dec_of, joined, join_strings, u64_to_string};
use crate::urlenc::{enc_pairs, encode_pairs, pairs_bytes};

verus! {

/// OData query parameters.
///
/// Built with chained setters, then rendered with [`Parameters::to_string`]:
/// custom pairs come first, followed by `$select`, `$expand`, `$filter`,
/// `$orderBy`, `$top` and `$skip`, each present only when set.
#[derive(Debug, Clone, Default)]
pub struct Parameters {
    /// Custom key/value parameters.
    pub custom: Option<Vec<(String, String)>>,
    /// `$select` fields, joined by `,`.
    pub select: Option<Vec<String>>,
    /// `$expand` fields, joined by `,`.
    pub expand: Option<Vec<String>>,
    /// `$filter` clauses, joined by ` and `.
    pub filter: Option<Vec<String>>,
    /// `$orderBy` clauses, joined by `,`.
    pub order_by: Option<Vec<String>>,
    /// `$top` limit.
    pub top: Option<u32>,
    /// `$skip` offset.
    pub skip: Option<u32>,
}

/// The list an optional field contributes after one more item is added to
/// it: its items so far, then the new one.
pub open spec fn appended<T>(o: Option<Vec<T>>, x: T) -> Seq<T> {
    (match o {
        Some(v) => v@,
        None => Seq::<T>::empty(),
    }).push(x)
}

/// The key/value pairs a custom-parameter field contributes.
pub open spec fn custom_pairs(o: Option<Vec<(String, String)>>) -> Seq<(Seq<char>, Seq<char>)> {
    match o {
        None => Seq::<(Seq<char>, Seq<char>)>::empty(),
        Some(cs) => cs@.map_values(|p: (String, String)| (p.0@, p.1@)),
    }
}

/// The pair a list-valued option contributes: its items joined by `sep`
/// under `key`, or nothing when unset.
pub open spec fn opt_join(o: Option<Vec<String>>, key: Seq<char>, sep: Seq<char>) -> Seq<
    (Seq<char>, Seq<char>),
> {
    match o {
        None => Seq::<(Seq<char>, Seq<char>)>::empty(),
        Some(items) => seq![(key, joined(items@.map_values(|s: String| s@), sep))],
    }
}

/// The pair a numeric option contributes: its decimal rendering under
/// `key`, or nothing when unset.
pub open spec fn opt_num(o: Option<u32>, key: Seq<char>) -> Seq<(Seq<char>, Seq<char>)> {
    match o {
        None => Seq::<(Seq<char>, Seq<char>)>::empty(),
        Some(n) => seq![(key, dec_of(n as int))],
    }
}

/// All key/value pairs of a parameter set, in rendering order.
pub open spec fn options_pairs(p: Parameters) -> Seq<(Seq<char>, Seq<char>)> {
    custom_pairs(p.custom) + opt_join(p.select, "$select"@, ","@) + opt_join(
        p.expand,
        "$expand"@,
        ","@,
    ) + opt_join(p.filter, "$filter"@, " and "@) + opt_join(p.order_by, "$orderBy"@, ","@)
        + opt_num(p.top, "$top"@) + opt_num(p.skip, "$skip"@)
}

/// The pairs over their UTF-8 bytes, as the urlencoder consumes them.
pub open spec fn utf8_pairs(ps: Seq<(Seq<char>, Seq<char>)>) -> Seq<(Seq<u8>, Seq<u8>)> {
    ps.map_values(|p: (Seq<char>, Seq<char>)| (encode_utf8(p.0), encode_utf8(p.1)))
}

impl Parameters {
    /// Create a parameter set with no options specified.
    pub fn new() -> (r: Self)
        ensures
            r.custom.is_none(),
            r.select.is_none(),
            r.expand.is_none(),
            r.filter.is_none(),
            r.order_by.is_none(),
            r.top.is_none(),
            r.skip.is_none(),
    {
        Parameters {
            custom: None,
            select: None,
            expand: None,
            filter: None,
            order_by: None,
            top: None,
            skip: None,
        }
    }

    /// Set the custom parameters.
    pub fn custom(self, opt: Vec<(String, String)>) -> (r: Self)
        ensures
            r == (Parameters { custom: Some(opt), ..self }),
    {
        Parameters { custom: Some(opt), ..self }
    }

    /// Add one custom parameter.
    pub fn custom_add(self, param: (String, String)) -> (r: Self)
        ensures
            r.custom matches Some(v) && v@ == appended(self.custom, param),
            r == (Parameters { custom: r.custom, ..self }),
    {
        let mut items = match self.custom {
            Some(items) => items,
            None => Vec::new(),
        };
        items.push(param);
        Parameters { custom: Some(items), ..self }
    }

    /// Set the `$select` option.
    pub fn select(self, opt: Vec<String>) -> (r: Self)
        ensures
            r == (Parameters { select: Some(opt), ..self }),
    {
        Parameters { select: Some(opt), ..self }
    }

    /// Add one `$select` field.
    pub fn select_add(self, opt: String) -> (r: Self)
        ensures
            r.select matches Some(v) && v@ == appended(self.select, opt),
            r == (Parameters { select: r.select, ..self }),
    {
        let mut items = match self.select {
            Some(items) => items,
            None => Vec::new(),
        };
        items.push(opt);
        Parameters { select: Some(items), ..self }
    }

    /// Set the `$expand` option.
    pub fn expand(self, opt: Vec<String>) -> (r: Self)
        ensures
            r == (Parameters { expand: Some(opt), ..self }),
    {
        Parameters { expand: Some(opt), ..self }
    }

    /// Add one `$expand` field.
    pub fn expand_add(self, opt: String) -> (r: Self)
        ensures
            r.expand matches Some(v) && v@ == appended(self.expand, opt),
            r == (Parameters { expand: r.expand, ..self }),
    {
        let mut items = match self.expand {
            Some(items) => items,
            None => Vec::new(),
        };
        items.push(opt);
        Parameters { expand: Some(items), ..self }
    }

    /// Set the `$filter` option.
    pub fn filter(self, opt: Vec<String>) -> (r: Self)
        ensures
            r == (Parameters { filter: Some(opt), ..self }),
    {
        Parameters { filter: Some(opt), ..self }
    }

    /// Add one `$filter` clause.
    pub fn filter_add(self, opt: String) -> (r: Self)
        ensures
            r.filter matches Some(v) && v@ == appended(self.filter, opt),
            r == (Parameters { filter: r.filter, ..self }),
    {
        let mut items = match self.filter {
            Some(items) => items,
            None => Vec::new(),
        };
        items.push(opt);
        Parameters { filter: Some(items), ..self }
    }

    /// Set the `$orderBy` option.
    pub fn order_by(self, opt: Vec<String>) -> (r: Self)
        ensures
            r == (Parameters { order_by: Some(opt), ..self }),
    {
        Parameters { order_by: Some(opt), ..self }
    }

    /// Add one `$orderBy` clause.
    pub fn order_by_add(self, opt: String) -> (r: Self)
        ensures
            r.order_by matches Some(v) && v@ == appended(self.order_by, opt),
            r == (Parameters { order_by: r.order_by, ..self }),
    {
        let mut items = match self.order_by {
            Some(items) => items,
            None => Vec::new(),
        };
        items.push(opt);
        Parameters { order_by: Some(items), ..self }
    }

    /// Set the `$top` option.
    pub fn top(self, opt: u32) -> (r: Self)
        ensures
            r == (Parameters { top: Some(opt), ..self }),
    {
        Parameters { top: Some(opt), ..self }
    }

    /// Set the `$skip` option.
    pub fn skip(self, opt: u32) -> (r: Self)
        ensures
            r == (Parameters { skip: Some(opt), ..self }),
    {
        Parameters { skip: Some(opt), ..self }
    }

    /// Render the parameters as a form-urlencoded query string.
    #[verifier::rlimit(100)]
    pub fn to_string(&self) -> (r: String)
        ensures
            r@ == enc_pairs(utf8_pairs(options_pairs(*self))),
    {
        let mut options: Vec<(String, String)> = Vec::new();
        if let Some(items) = &self.custom {
            let mut i: usize = 0;
            while i < items.len()
                invariant
                    i <= items@.len(),
                    options@.len() == i,
                    forall|j: int|
                        0 <= j < i ==> (#[trigger] options@[j]).0@ == items@[j].0@ && options@[j].1@
                            == items@[j].1@,
                decreases items@.len() - i,
            {
                options.push((items[i].0.clone(), items[i].1.clone()));
                i = i + 1;
            }
        }
        if let Some(items) = &self.select {
            options.push((String::from_str("$select"), join_strings(items, ",")));
        }
        if let Some(items) = &self.expand {
            options.push((String::from_str("$expand"), join_strings(items, ",")));
        }
        if let Some(items) = &self.filter {
            options.push((String::from_str("$filter"), join_strings(items, " and ")));
        }
        if let Some(items) = &self.order_by {
            options.push((String::from_str("$orderBy"), join_strings(items, ",")));
        }
        if let Some(n) = &self.top {
            options.push((String::from_str("$top"), u64_to_string(*n as u64)));
        }
        if let Some(n) = &self.skip {
            options.push((String::from_str("$skip"), u64_to_string(*n as u64)));
        }
        let r = encode_pairs(&options);
        proof {
            assert(pairs_bytes(options@) =~= utf8_pairs(options_pairs(*self)));
        }
        r
    }
}

} // verus!
