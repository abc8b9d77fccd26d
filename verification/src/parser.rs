//! Validation of the configurable glyph table: a charmap argument must hold
//! exactly six characters, in the order vertical, horizontal, up-right,
//! down-right, up-left, down-left.

use vstd::prelude::*;
use vstd::string::StrSliceExecFns;

verus! {

/// The glyph table used when none is supplied.
pub const DEFAULT_MAP: &'static str = "┃━┗┏┛┓";

/// Turns a charmap argument into the six-glyph table, in order; any other
/// length is rejected.
pub fn parse_map(arg: &str) -> (r: Result<[char; 6], &'static str>)
    ensures
        r is Ok <==> arg@.len() == 6,
        r is Ok ==> r->Ok_0@ == arg@,
{
    let len: usize = arg.unicode_len();
    if len != 6 {
        Err("")
    } else {
        let m: [char; 6] = [
            arg.get_char(0),
            arg.get_char(1),
            arg.get_char(2),
            arg.get_char(3),
            arg.get_char(4),
            arg.get_char(5),
        ];
        proof {
            assert(m@ =~= arg@);
        }
        Ok(m)
    }
}

} // verus!
