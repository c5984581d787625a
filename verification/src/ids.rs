//! Identifiers of things that are kept: what they are, when they were made, and
//! the how-manieth they are.
use vstd::prelude::*;
use vstd::string::*;

use crate::text::{hex_text, hexadecimal};

verus! {

/// The identifier of a thing of some kind, made at the given time and the given
/// number of its kind.
pub open spec fn serial_id(kind: Seq<char>, now: nat, serial: nat) -> Seq<char> {
    kind + "-"@ + hexadecimal(now) + "-"@ + hexadecimal(serial)
}

/// Makes an identifier.
pub fn new_id(kind: &str, now_ms: u64, serial: u64) -> (r: String)
    ensures
        r@ == serial_id(kind@, now_ms as nat, serial as nat),
{
    let mut id: String = kind.to_owned();
    id.append("-");
    let now: String = hex_text(now_ms);
    id.append(now.as_str());
    id.append("-");
    let n: String = hex_text(serial);
    id.append(n.as_str());
    id
}

proof fn hex_has_no_dash(n: nat, i: int)
    requires
        0 <= i < hexadecimal(n).len(),
    ensures
        hexadecimal(n)[i] != '-',
    decreases n,
{
    if n >= 16 && i < hexadecimal(n).len() - 1 {
        hex_has_no_dash(n / 16, i);
    }
}

proof fn hex_not_empty(n: nat)
    ensures
        hexadecimal(n).len() > 0,
{
}

proof fn hex_differs(a: nat, b: nat)
    requires
        hexadecimal(a) == hexadecimal(b),
    ensures
        a == b,
    decreases a,
{
    let x = hexadecimal(a);
    let y = hexadecimal(b);
    assert(x.last() == y.last());
    if a >= 16 && b >= 16 {
        assert(x.drop_last() =~= hexadecimal(a / 16));
        assert(y.drop_last() =~= hexadecimal(b / 16));
        hex_differs(a / 16, b / 16);
    } else if a >= 16 {
        hex_not_empty(a / 16);
    } else if b >= 16 {
        hex_not_empty(b / 16);
    }
}

/// Things of a kind with different numbers have different identifiers, whenever
/// they were made.
pub proof fn identifiers_differ(kind: Seq<char>, now_1: nat, now_2: nat, n_1: nat, n_2: nat)
    requires
        n_1 != n_2,
    ensures
        serial_id(kind, now_1, n_1) != serial_id(kind, now_2, n_2),
{
    reveal_strlit("-");
    let a = serial_id(kind, now_1, n_1);
    let b = serial_id(kind, now_2, n_2);
    if a == b {
        let p = a.len() - hexadecimal(n_1).len() - 1;
        let q = b.len() - hexadecimal(n_2).len() - 1;
        assert(a[p] == '-');
        assert(b[q] == '-');
        if p < q {
            let i = q - p - 1;
            assert(a[q] == hexadecimal(n_1)[i]);
            hex_has_no_dash(n_1, i);
        } else if q < p {
            let i = p - q - 1;
            assert(b[p] == hexadecimal(n_2)[i]);
            hex_has_no_dash(n_2, i);
        }
        assert(a.skip(p + 1) =~= hexadecimal(n_1));
        assert(b.skip(q + 1) =~= hexadecimal(n_2));
        hex_differs(n_1, n_2);
    }
}

} // verus!
