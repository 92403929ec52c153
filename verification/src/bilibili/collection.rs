//! Favourite lists.

use crate::bilibili::utils::{decimal, decimal_string};
use crate::bilibili::video::params_view;
use vstd::prelude::*;

verus! {

/// The parameters of a request for page `pn` of favourite list `mid`, `ps`
/// entries a page, newest first, as the web site asks for it.
pub fn collection_params(mid: i64, ps: i64, pn: i64) -> (r: Vec<(String, String)>)
    ensures
        params_view(r@) == seq![
            ("media_id"@, decimal(mid as int)),
            ("order"@, "mtime"@),
            ("ps"@, decimal(ps as int)),
            ("pn"@, decimal(pn as int)),
            ("platform"@, "web"@),
        ],
{
    let r = vec![
        (String::from_str("media_id"), decimal_string(mid)),
        (String::from_str("order"), String::from_str("mtime")),
        (String::from_str("ps"), decimal_string(ps)),
        (String::from_str("pn"), decimal_string(pn)),
        (String::from_str("platform"), String::from_str("web")),
    ];
    assert(params_view(r@) =~= seq![
        ("media_id"@, decimal(mid as int)),
        ("order"@, "mtime"@),
        ("ps"@, decimal(ps as int)),
        ("pn"@, decimal(pn as int)),
        ("platform"@, "web"@),
    ]);
    r
}

} // verus!
