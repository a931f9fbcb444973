//! Query strings of REST calls, built in the order their parameters are given
//! so that the signed endpoint and the sent one agree byte for byte.
use vstd::prelude::*;
use crate::text::{push_char, signed_decimal, signed_decimal_string};

verus! {

/// Views of a list of (name, value) parameters.
pub open spec fn param_views(ps: Seq<(String, String)>) -> Seq<(Seq<char>, Seq<char>)> {
    ps.map_values(|p: (String, String)| (p.0@, p.1@))
}

/// The parameters as `name=value`, joined by `&`.
pub open spec fn pairs_text(ps: Seq<(Seq<char>, Seq<char>)>) -> Seq<char>
    decreases ps.len(),
{
    if ps.len() == 0 {
        Seq::empty()
    } else {
        let last = ps.last();
        let item = last.0 + seq!['='] + last.1;
        if ps.len() == 1 {
            item
        } else {
            pairs_text(ps.drop_last()) + seq!['&'] + item
        }
    }
}

/// The query string: empty without parameters, else `?` and the pairs.
pub open spec fn query_of(ps: Seq<(Seq<char>, Seq<char>)>) -> Seq<char> {
    if ps.len() == 0 {
        Seq::empty()
    } else {
        seq!['?'] + pairs_text(ps)
    }
}

pub fn format_query(params: &Vec<(String, String)>) -> (r: String)
    ensures
        r@ == query_of(param_views(params@)),
{
    let mut s = String::new();
    let mut i: usize = 0;
    while i < params.len()
        invariant
            i <= params.len(),
            s@ == query_of(param_views(params@.subrange(0, i as int))),
        decreases params.len() - i,
    {
        proof {
            assert(param_views(params@.subrange(0, i as int + 1)).drop_last() =~= param_views(params@.subrange(0, i as int)));
        }
        if i == 0 {
            push_char(&mut s, '?');
        } else {
            push_char(&mut s, '&');
        }
        s.append(params[i].0.as_str());
        push_char(&mut s, '=');
        s.append(params[i].1.as_str());
        proof {
            let ps = param_views(params@.subrange(0, i as int + 1));
            assert(ps.last() == (params@[i as int].0@, params@[i as int].1@));
            assert(s@ =~= query_of(ps));
        }
        i = i + 1;
    }
    proof {
        assert(params@.subrange(0, params@.len() as int) =~= params@);
    }
    s
}

/// The optional `currency`, `currentPage` and `pageSize` parameters of a
/// paginated listing, in this order, each present when given.
pub open spec fn page_params_of(currency: Option<Seq<char>>, current_page: Option<i32>, page_size: Option<i32>) -> Seq<
    (Seq<char>, Seq<char>),
> {
    let a = match currency {
        Some(c) => seq![("currency"@, c)],
        None => Seq::empty(),
    };
    let b = match current_page {
        Some(p) => seq![("currentPage"@, signed_decimal(p as int))],
        None => Seq::empty(),
    };
    let c = match page_size {
        Some(p) => seq![("pageSize"@, signed_decimal(p as int))],
        None => Seq::empty(),
    };
    a + b + c
}

pub fn page_params(currency: Option<&str>, current_page: Option<i32>, page_size: Option<i32>) -> (r: Vec<(String, String)>)
    ensures
        param_views(r@) == page_params_of(
            match currency {
                Some(c) => Some(c@),
                None => None,
            },
            current_page,
            page_size,
        ),
{
    let mut r: Vec<(String, String)> = Vec::new();
    if let Some(c) = currency {
        r.push((String::from_str("currency"), String::from_str(c)));
    }
    if let Some(p) = current_page {
        r.push((String::from_str("currentPage"), signed_decimal_string(p as i64)));
    }
    if let Some(p) = page_size {
        r.push((String::from_str("pageSize"), signed_decimal_string(p as i64)));
    }
    proof {
        let cv = match currency {
            Some(c) => Some(c@),
            None => None,
        };
        assert(param_views(r@) =~= page_params_of(cv, current_page, page_size));
    }
    r
}

} // verus!
