//! The scanner's filter: which discovered paths are source items. A path is
//! accepted exactly when its file name's extension is one of the accepted
//! image extensions, case-sensitively. Traversing the tree is the caller's
//! job; entries it cannot read are skipped there and never reach the filter.
use vstd::prelude::*;

use crate::paths::{file_name, find_last, spec_extension, spec_file_name, spec_has_extension, DOT};

verus! {

/// ASCII `j`.
pub const LOWER_J: u8 = 106;

/// ASCII `g`.
pub const LOWER_G: u8 = 103;

/// ASCII `n`.
pub const LOWER_N: u8 = 110;

/// ASCII `i`.
pub const LOWER_I: u8 = 105;

/// ASCII `f`.
pub const LOWER_F: u8 = 102;

/// The accepted extension `jpg`.
pub open spec fn ext_jpg() -> Seq<u8> {
    seq![LOWER_J, crate::paths::LOWER_P, LOWER_G]
}

/// The accepted extension `jpeg`.
pub open spec fn ext_jpeg() -> Seq<u8> {
    seq![LOWER_J, crate::paths::LOWER_P, crate::paths::LOWER_E, LOWER_G]
}

/// The accepted extension `png`.
pub open spec fn ext_png() -> Seq<u8> {
    seq![crate::paths::LOWER_P, LOWER_N, LOWER_G]
}

/// The accepted extension `gif`.
pub open spec fn ext_gif() -> Seq<u8> {
    seq![LOWER_G, LOWER_I, LOWER_F]
}

/// Whether a discovered path is a source item: its file name has an
/// extension and the extension is one of the accepted set.
pub open spec fn spec_accepts(p: Seq<u8>) -> bool {
    &&& spec_has_extension(spec_file_name(p))
    &&& {
        let e = spec_extension(spec_file_name(p));
        e == ext_jpg() || e == ext_jpeg() || e == ext_png() || e == ext_gif()
    }
}

/// Whether the path at hand is accepted by the scanner's filter.
pub fn accepts_source(path: &Vec<u8>) -> (r: bool)
    ensures
        r == spec_accepts(path@),
{
    let name = file_name(path);
    let dot: usize = match find_last(&name, DOT) {
        Some(j) => {
            if j == 0 {
                return false;
            }
            j
        },
        None => {
            return false;
        },
    };
    let n = name.len();
    let len = n - dot - 1;
    let r: bool = if len == 3 {
        (name[dot + 1] == LOWER_J && name[dot + 2] == crate::paths::LOWER_P && name[dot + 3]
            == LOWER_G) || (name[dot + 1] == crate::paths::LOWER_P && name[dot + 2] == LOWER_N
            && name[dot + 3] == LOWER_G) || (name[dot + 1] == LOWER_G && name[dot + 2] == LOWER_I
            && name[dot + 3] == LOWER_F)
    } else if len == 4 {
        name[dot + 1] == LOWER_J && name[dot + 2] == crate::paths::LOWER_P && name[dot + 3]
            == crate::paths::LOWER_E && name[dot + 4] == LOWER_G
    } else {
        false
    };
    proof {
        let e = spec_extension(name@);
        assert(e.len() == name@.len() - dot - 1);
        if r {
            if len == 3 {
                if name@[dot + 1] == LOWER_J {
                    assert(e =~= ext_jpg());
                } else if name@[dot + 1] == crate::paths::LOWER_P {
                    assert(e =~= ext_png());
                } else {
                    assert(e =~= ext_gif());
                }
            } else {
                assert(e =~= ext_jpeg());
            }
        }
    }
    r
}

/// The filter's predicate, as a value usable with sequence filtering.
pub open spec fn accepts_pred() -> spec_fn(Seq<u8>) -> bool {
    |p: Seq<u8>| spec_accepts(p)
}

/// The views of a sequence of byte vectors.
pub open spec fn views_of(s: Seq<Vec<u8>>) -> Seq<Seq<u8>> {
    s.map_values(|v: Vec<u8>| v@)
}

/// Keeps, in order, exactly the discovered paths the filter accepts: the
/// scanner's selection of source items from one traversal.
pub fn select_sources(paths: &Vec<Vec<u8>>) -> (r: Vec<Vec<u8>>)
    ensures
        views_of(r@) == views_of(paths@).filter(accepts_pred()),
{
    let mut r: Vec<Vec<u8>> = Vec::new();
    let n = paths.len();
    let mut i: usize = 0;
    proof {
        reveal(Seq::filter);
        assert(views_of(paths@.take(0)) =~= Seq::<Seq<u8>>::empty());
        assert(views_of(r@) =~= Seq::<Seq<u8>>::empty());
    }
    while i < n
        invariant
            i <= n == paths@.len(),
            views_of(r@) == views_of(paths@.take(i as int)).filter(accepts_pred()),
        decreases n - i,
    {
        let ghost prev = views_of(r@);
        if accepts_source(&paths[i]) {
            let copy = crate::paths::clone_bytes(&paths[i]);
            r.push(copy);
            proof {
                assert(views_of(r@) =~= prev.push(paths@[i as int]@));
            }
        }
        proof {
            reveal(Seq::filter);
            let t = views_of(paths@.take(i + 1));
            assert(t =~= views_of(paths@.take(i as int)).push(paths@[i as int]@));
            assert(t.drop_last() =~= views_of(paths@.take(i as int)));
            assert(t.last() == paths@[i as int]@);
            assert(t.len() > 0);
            assert(t.filter(accepts_pred()) == if accepts_pred()(t.last()) {
                t.drop_last().filter(accepts_pred()).push(t.last())
            } else {
                t.drop_last().filter(accepts_pred())
            });
            assert(t.filter(accepts_pred()) == views_of(r@));
        }
        i = i + 1;
    }
    proof {
        assert(paths@.take(n as int) =~= paths@);
    }
    r
}

} // verus!
