//! Choice of the locale whose compose table is loaded.
//!
//! The driver reads the three relevant environment variables and hands
//! their raw bytes here; the choice itself — the first one set, with a
//! fixed fallback — is the library's rule.

use vstd::prelude::*;

verus! {

/// The locale the compose table is built for: `LC_ALL` if set, else
/// `LC_CTYPE`, else `LANG`, else the portable default locale "C"
/// (the single byte 67).
pub open spec fn chosen_locale(
    lc_all: Option<Seq<u8>>,
    lc_ctype: Option<Seq<u8>>,
    lang: Option<Seq<u8>>,
) -> Seq<u8> {
    match lc_all {
        Some(v) => v,
        None => match lc_ctype {
            Some(v) => v,
            None => match lang {
                Some(v) => v,
                None => seq![67u8],
            },
        },
    }
}

/// The view of an optional byte string.
pub open spec fn opt_bytes(o: Option<Vec<u8>>) -> Option<Seq<u8>> {
    match o {
        Some(v) => Some(v@),
        None => None,
    }
}

/// Choose the locale for the compose table from the raw values of the
/// three environment variables, in their order of precedence.
pub fn choose_locale(
    lc_all: Option<Vec<u8>>,
    lc_ctype: Option<Vec<u8>>,
    lang: Option<Vec<u8>>,
) -> (r: Vec<u8>)
    ensures
        r@ == chosen_locale(opt_bytes(lc_all), opt_bytes(lc_ctype), opt_bytes(lang)),
{
    match lc_all {
        Some(v) => v,
        None => match lc_ctype {
            Some(v) => v,
            None => match lang {
                Some(v) => v,
                None => {
                    let mut v: Vec<u8> = Vec::new();
                    v.push(67);
                    proof {
                        assert(v@ =~= seq![67u8]);
                    }
                    v
                },
            },
        },
    }
}

} // verus!
