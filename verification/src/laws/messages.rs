//! Laws of the messages.

use vstd::prelude::*;

use crate::socket::{Socket, XskmapUpdate};
use crate::text::{decimal, decimal_digits};

verus! {

/// The number that a text of decimal digits stands for.
pub open spec fn value(text: Seq<char>) -> int
    decreases text.len(),
{
    if text.len() == 0 {
        0
    } else {
        10 * value(text.drop_last()) + (text.last() as int - '0' as int)
    }
}

/// The digits of a number stand for that number. All of them are decimal digits, and none
/// of them is a zero in front of another.
pub proof fn law_digits_read_back(n: nat)
    ensures
        value(decimal_digits(n)) == n,
        decimal_digits(n).len() >= 1,
        forall|i: int|
            0 <= i < decimal_digits(n).len() ==> '0' as int <= #[trigger] decimal_digits(n)[i] as int
                <= '9' as int,
        n >= 1 ==> decimal_digits(n)[0] != '0',
        n == 0 ==> decimal_digits(n).len() == 1,
    decreases n,
{
    let digits = decimal_digits(n);
    if n < 10 {
        assert(digits.drop_last().len() == 0);
        assert(value(digits.drop_last()) == 0);
    } else {
        let front = decimal_digits(n / 10);
        law_digits_read_back(n / 10);
        assert(digits.drop_last() =~= front);
        assert forall|i: int| 0 <= i < digits.len() implies '0' as int <= #[trigger] digits[i] as int
            <= '9' as int by {
            if i < front.len() {
                assert(digits[i] == front[i]);
            }
        }
        assert(digits[0] == front[0]);
    }
}

/// A number in decimal reads back: behind a minus sign where it is negative, and as it
/// stands otherwise.
pub proof fn law_decimal_reads_back(n: int)
    ensures
        n >= 0 ==> value(decimal(n)) == n && decimal(n)[0] != '-',
        n < 0 ==> decimal(n)[0] == '-' && -value(decimal(n).skip(1)) == n && decimal(n)[1] != '0',
{
    if n < 0 {
        law_digits_read_back((-n) as nat);
        assert(decimal(n).skip(1) =~= decimal_digits((-n) as nat));
        assert(decimal(n)[1] == decimal_digits((-n) as nat)[0]);
    } else {
        law_digits_read_back(n as nat);
    }
}

/// The message for a failed update of an XSKMAP names the call and then the code that it
/// returned, in decimal.
pub proof fn law_xskmap_failure_tells_the_code(ret: i32)
    requires
        ret < 0,
    ensures
        ({
            let start = "xsk_socket__update_xskmap failed: "@;
            let message = XskmapUpdate::failure_message(ret);
            let n = start.len() as int;
            &&& message.take(n) == start
            &&& message[n] == '-'
            &&& -value(message.skip(n + 1)) == ret
        }),
{
    let start = "xsk_socket__update_xskmap failed: "@;
    let message = XskmapUpdate::failure_message(ret);
    let n = start.len() as int;
    law_decimal_reads_back(ret as int);
    assert(message.take(n) =~= start);
    assert(message.skip(n + 1) =~= decimal(ret as int).skip(1));
    assert(message[n] == decimal(ret as int)[0]);
}

/// A socket that libxdp does not know is refused with a message that says what to do
/// instead.
pub proof fn law_inherited_socket_is_told_what_to_do()
    ensures
        Socket::inherited_message()
            == "update_xskmap is not available on sockets reconstructed via from_raw_fd; the successor must update the XSKMAP by raw FD instead"@,
{
}

} // verus!
