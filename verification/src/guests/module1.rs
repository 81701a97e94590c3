//! module1: four functions that print or answer fixed texts.
use vstd::prelude::*;
use vstd::string::*;

use crate::text::{append_decimal, decimal};

verus! {

/// The items of `bytes` as decimal numerals, separated by ", ".
pub open spec fn byte_list(bytes: Seq<u8>) -> Seq<char>
    decreases bytes.len(),
{
    if bytes.len() == 0 {
        Seq::empty()
    } else if bytes.len() == 1 {
        decimal(bytes[0] as nat)
    } else {
        byte_list(bytes.drop_last()) + ", "@ + decimal(bytes.last() as nat)
    }
}

/// f1 prints its argument after "message: "; this is the line.
pub fn f1(s: String) -> (line: String)
    ensures
        line@ == "message: "@ + s@,
{
    let mut line = String::from_str("message: ");
    line.append(s.as_str());
    line
}

/// f2 answers "sdf".
pub fn f2() -> (r: String)
    ensures
        r@ == "sdf"@,
{
    String::from_str("sdf")
}

/// f3 prints this line.
pub fn f3() -> (line: String)
    ensures
        line@ == "implemeted in module"@,
{
    String::from_str("implemeted in module")
}

/// f4 prints its bytes in list form, as `{:?}` writes a `Vec<u8>`:
/// "[1, 2, 3]"; this is the line.
pub fn f4(slice: Vec<u8>) -> (line: String)
    ensures
        line@ == "["@ + byte_list(slice@) + "]"@,
{
    let mut line = String::from_str("[");
    let n = slice.len();
    let mut i: usize = 0;
    while i < n
        invariant
            n == slice@.len(),
            i <= n,
            line@ == "["@ + byte_list(slice@.take(i as int)),
        decreases n - i,
    {
        let ghost before = line@;
        if i > 0 {
            line.append(", ");
        }
        append_decimal(&mut line, slice[i] as usize);
        proof {
            let t = slice@.take(i + 1);
            assert(t.drop_last() =~= slice@.take(i as int));
            assert(t.last() == slice@[i as int]);
            if i == 0 {
                assert(t.len() == 1);
                assert(byte_list(slice@.take(0)) =~= Seq::<char>::empty());
                assert(byte_list(t) == decimal(t[0] as nat));
                assert(line@ =~= "["@ + byte_list(t));
            } else {
                assert(line@ =~= "["@ + byte_list(t));
            }
        }
        i = i + 1;
    }
    assert(slice@.take(n as int) =~= slice@);
    line.append("]");
    line
}

} // verus!
