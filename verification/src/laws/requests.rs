//! What a request carries.
use crate::outside::{
    base58, base58_digits, decimal, duration_nanos, grpc_timeout_text, leading_zeros, number_of,
};
use crate::reader::{LedgerGrpcReader, OutgoingRequest};
use vstd::prelude::*;

verus! {

/// How many nanoseconds a unit of a `grpc-timeout` header lasts, or 0 for what is no unit.
pub open spec fn unit_nanos(unit: char) -> nat {
    if unit == 'n' {
        1
    } else if unit == 'u' {
        1_000
    } else if unit == 'm' {
        1_000_000
    } else if unit == 'S' {
        1_000_000_000
    } else if unit == 'M' {
        60_000_000_000
    } else if unit == 'H' {
        3_600_000_000_000
    } else {
        0
    }
}

/// The text is a number written in decimal digits, without zeros in front.
pub open spec fn is_numeral(text: Seq<char>) -> bool {
    &&& text.len() > 0
    &&& forall|i: int| 0 <= i < text.len() ==> '0' <= #[trigger] text[i] <= '9'
    &&& text.len() > 1 ==> text[0] != '0'
}

/// The number that decimal digits stand for.
pub open spec fn numeral_value(text: Seq<char>) -> nat
    decreases text.len(),
{
    if text.len() == 0 {
        0
    } else {
        (numeral_value(text.drop_last()) * 10 + (text.last() as int - '0' as int)) as nat
    }
}

/// The header is a number of at most eight digits and a unit that together are the timeout, up to what
/// is less than one unit, and no finer unit would do.
pub open spec fn denotes(header: Seq<char>, nanos: nat) -> bool {
    let digits = header.drop_last();
    let number = numeral_value(digits);
    let size = unit_nanos(header.last());
    &&& header.len() > 1
    &&& is_numeral(digits)
    &&& number <= 99_999_999
    &&& size > 0
    &&& number * size <= nanos < number * size + size
    &&& forall|finer: char|
        0 < #[trigger] unit_nanos(finer) < size ==> nanos / unit_nanos(finer) > 99_999_999
}

proof fn lemma_decimal(number: nat)
    ensures
        is_numeral(decimal(number)),
        numeral_value(decimal(number)) == number,
        number > 0 ==> decimal(number)[0] != '0',
    decreases number,
{
    let text = decimal(number);
    let digit = (48 + number % 10) as char;
    assert(digit as int == 48 + number % 10);
    if number < 10 {
        assert(text =~= seq![digit]);
        assert(text.drop_last() =~= Seq::empty());
        assert(numeral_value(text.drop_last()) == 0);
    } else {
        let front = decimal(number / 10);
        lemma_decimal(number / 10);
        assert(text =~= front.push(digit));
        assert(text.drop_last() =~= front);
        assert forall|i: int| 0 <= i < text.len() implies '0' <= #[trigger] text[i] <= '9' by {
            if i < front.len() {
                assert(text[i] == front[i]);
            }
        }
        assert(text[0] == front[0]);
    }
}

proof fn lemma_header(nanos: nat, number: nat, unit: char)
    requires
        unit_nanos(unit) > 0,
        number <= 99_999_999,
        number * unit_nanos(unit) <= nanos < number * unit_nanos(unit) + unit_nanos(unit),
        forall|finer: char|
            0 < #[trigger] unit_nanos(finer) < unit_nanos(unit) ==> nanos / unit_nanos(finer)
                > 99_999_999,
    ensures
        denotes(decimal(number).push(unit), nanos),
{
    lemma_decimal(number);
    assert(decimal(number).push(unit).drop_last() =~= decimal(number));
}

/// The text of a timeout denotes the timeout.
pub proof fn law_timeout_text_denotes_the_timeout(nanos: nat)
    requires
        nanos < 360_000_000_000_000_000_000,
    ensures
        denotes(grpc_timeout_text(nanos), nanos),
{
    let most: nat = 99_999_999;
    let seconds = nanos / 1_000_000_000;
    assert(seconds / 60 == nanos / 60_000_000_000);
    assert(seconds / 60 / 60 == nanos / 3_600_000_000_000);
    if nanos <= most {
        lemma_header(nanos, nanos, 'n');
    } else if nanos / 1_000 <= most {
        lemma_header(nanos, nanos / 1_000, 'u');
    } else if nanos / 1_000_000 <= most {
        lemma_header(nanos, nanos / 1_000_000, 'm');
    } else if seconds <= most {
        lemma_header(nanos, seconds, 'S');
    } else if seconds / 60 <= most {
        lemma_header(nanos, seconds / 60, 'M');
    } else {
        lemma_header(nanos, seconds / 60 / 60, 'H');
    }
}

/// A timeout can be sent along if and only if it is shorter than a hundred million hours.
pub proof fn law_timeout_fits_below_the_limit<C, A>(reader: LedgerGrpcReader<C, A>)
    ensures
        reader.timeout is None ==> reader.timeout_fits(),
        reader.timeout matches Some(timeout) ==> (reader.timeout_fits() <==> duration_nanos(timeout)
            < 100_000_000 * 3_600_000_000_000),
{
}

/// A request carries its message and, if and only if the reader has a timeout, a header that denotes
/// this timeout. Nothing else about the reader matters.
pub proof fn law_request_carries_the_timeout<C, A, T>(
    reader: LedgerGrpcReader<C, A>,
    input: T,
    request: OutgoingRequest<T>,
)
    requires
        reader.timeout_fits(),
        reader.is_request(input, request),
    ensures
        request.message == input,
        request.grpc_timeout is Some <==> reader.timeout is Some,
        reader.timeout matches Some(timeout) ==> denotes(
            request.grpc_timeout->0@,
            duration_nanos(timeout),
        ),
{
    law_timeout_fits_below_the_limit(reader);
    if let Some(timeout) = reader.timeout {
        law_timeout_text_denotes_the_timeout(duration_nanos(timeout));
    }
}

/// The number that digits to the base `base` stand for, the most significant first.
pub open spec fn positional_value(digits: Seq<int>, base: int) -> int
    decreases digits.len(),
{
    if digits.len() == 0 {
        0
    } else {
        positional_value(digits.drop_last(), base) * base + digits.last()
    }
}

/// `digits` are the digits to the base 58 that a text shows.
pub open spec fn shows_digits(text: Seq<char>, digits: Seq<int>) -> bool {
    &&& text.len() == digits.len()
    &&& forall|i: int|
        0 <= i < digits.len() ==> 0 <= #[trigger] digits[i] < 58 && text[i]
            == "123456789ABCDEFGHJKLMNPQRSTUVWXYZabcdefghijkmnopqrstuvwxyz"@[digits[i]]
}

/// The first `zeros` digits are zero, and the next is not.
pub open spec fn begins_with_zeros(digits: Seq<int>, zeros: int) -> bool {
    &&& 0 <= zeros <= digits.len()
    &&& forall|i: int| 0 <= i < zeros ==> #[trigger] digits[i] == 0
    &&& zeros < digits.len() ==> digits[zeros] != 0
}

/// The bytes as digits to the base 256.
pub open spec fn byte_digits(bytes: Seq<u8>) -> Seq<int> {
    bytes.map_values(|byte: u8| byte as int)
}

proof fn lemma_number_of(bytes: Seq<u8>)
    ensures
        number_of(bytes) == positional_value(byte_digits(bytes), 256),
    decreases bytes.len(),
{
    if bytes.len() > 0 {
        lemma_number_of(bytes.drop_last());
        assert(byte_digits(bytes).drop_last() =~= byte_digits(bytes.drop_last()));
    }
}

proof fn lemma_leading_zeros(bytes: Seq<u8>)
    ensures
        begins_with_zeros(byte_digits(bytes), leading_zeros(bytes) as int),
    decreases bytes.len(),
{
    if bytes.len() > 0 && bytes.first() == 0 {
        let rest = bytes.drop_first();
        lemma_leading_zeros(rest);
        let zeros = leading_zeros(bytes) as int;
        assert forall|i: int| 0 <= i < zeros implies #[trigger] byte_digits(bytes)[i] == 0 by {
            if i > 0 {
                assert(byte_digits(bytes)[i] == byte_digits(rest)[i - 1]);
            }
        }
        if zeros < bytes.len() {
            assert(byte_digits(bytes)[zeros] == byte_digits(rest)[zeros - 1]);
        }
    }
}

proof fn lemma_base58_digits(number: nat) -> (digits: Seq<int>)
    ensures
        shows_digits(base58_digits(number), digits),
        positional_value(digits, 58) == number,
        begins_with_zeros(digits, 0),
    decreases number,
{
    if number == 0 {
        Seq::empty()
    } else {
        let front = lemma_base58_digits(number / 58);
        let digits = front.push((number % 58) as int);
        assert(digits.drop_last() =~= front);
        if front.len() > 0 {
            assert(digits[0] == front[0]);
        } else {
            assert(number / 58 == 0);
        }
        digits
    }
}

proof fn lemma_zeros_in_front(zeros: nat, digits: Seq<int>, base: int)
    ensures
        positional_value(Seq::new(zeros, |i: int| 0int) + digits, base) == positional_value(
            digits,
            base,
        ),
    decreases digits.len(), zeros,
{
    let all = Seq::new(zeros, |i: int| 0int) + digits;
    if digits.len() > 0 {
        lemma_zeros_in_front(zeros, digits.drop_last(), base);
        assert(all.drop_last() =~= Seq::new(zeros, |i: int| 0int) + digits.drop_last());
    } else if zeros > 0 {
        lemma_zeros_in_front((zeros - 1) as nat, digits, base);
        assert(all.drop_last() =~= Seq::new((zeros - 1) as nat, |i: int| 0int) + digits);
        assert(0 * base == 0);
    } else {
        assert(all =~= digits);
    }
}

/// The Base58 text of bytes stands for the same number as the bytes, and has as many zeros in front.
pub proof fn law_base58_denotes_the_bytes(bytes: Seq<u8>)
    ensures
        exists|digits: Seq<int>, zeros: int|
            {
                &&& #[trigger] shows_digits(base58(bytes), digits)
                &&& positional_value(digits, 58) == positional_value(byte_digits(bytes), 256)
                &&& #[trigger] begins_with_zeros(digits, zeros)
                &&& begins_with_zeros(byte_digits(bytes), zeros)
            },
{
    let zeros = leading_zeros(bytes);
    let low = lemma_base58_digits(number_of(bytes));
    let digits = Seq::new(zeros, |i: int| 0int) + low;
    lemma_number_of(bytes);
    lemma_leading_zeros(bytes);
    lemma_zeros_in_front(zeros, low, 58);
    reveal_strlit("123456789ABCDEFGHJKLMNPQRSTUVWXYZabcdefghijkmnopqrstuvwxyz");
    assert forall|i: int| 0 <= i < digits.len() implies 0 <= #[trigger] digits[i] < 58
        && base58(bytes)[i] == "123456789ABCDEFGHJKLMNPQRSTUVWXYZabcdefghijkmnopqrstuvwxyz"@[
        digits[i]] by {
        if i >= zeros {
            assert(digits[i] == low[i - zeros]);
            assert(base58(bytes)[i] == base58_digits(number_of(bytes))[i - zeros]);
        }
    }
    assert(shows_digits(base58(bytes), digits));
    if zeros < digits.len() {
        assert(digits[zeros as int] == low[0]);
    }
    assert(begins_with_zeros(digits, zeros as int));
}

} // verus!
