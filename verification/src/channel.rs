//! Broker channels: one per channel kind and market, named by the kind, a
//! colon and the market in decimal.

use vstd::prelude::*;
use vstd::string::StrSliceExecFns;
use vstd::string::StringExecFns;

use crate::decimal::lemma_pow10_monotonic;
use crate::decimal::pow10;

verus! {

/// The character is a decimal digit.
pub open spec fn is_digit(c: char) -> bool {
    '0' <= c && c <= '9'
}

/// The character that writes the digit `d`.
pub open spec fn digit_char(d: nat) -> char {
    ((d + 48) as u8) as char
}

/// The digit that a character writes.
pub open spec fn digit_of(c: char) -> nat {
    (c as u32 - 48) as nat
}

/// The decimal text of a number, without leading zeros.
pub open spec fn decimal_text(n: nat) -> Seq<char>
    decreases n,
{
    if n < 10 {
        seq![digit_char(n)]
    } else {
        decimal_text(n / 10).push(digit_char(n % 10))
    }
}

/// The number that a text of digits writes.
pub open spec fn text_value(text: Seq<char>) -> nat
    decreases text.len(),
{
    if text.len() == 0 {
        0
    } else {
        text_value(text.drop_last()) * 10 + digit_of(text.last())
    }
}

/// The decimal text of a number is made of digits, and writes that number.
pub proof fn lemma_decimal_text(n: nat)
    ensures
        decimal_text(n).len() >= 1,
        forall|i: int| 0 <= i < decimal_text(n).len() ==> is_digit(#[trigger] decimal_text(n)[i]),
        text_value(decimal_text(n)) == n,
    decreases n,
{
    let text = decimal_text(n);
    if n < 10 {
        assert(text_value(text.drop_last()) == 0);
    } else {
        lemma_decimal_text(n / 10);
        assert(text.drop_last() =~= decimal_text(n / 10));
        assert forall|i: int| 0 <= i < text.len() implies is_digit(#[trigger] text[i]) by {
        }
    }
}

/// A number of more than one digit is at least the power of ten with as
/// many digits.
pub proof fn lemma_decimal_text_len(n: nat)
    ensures
        n < 10 || pow10((decimal_text(n).len() - 1) as nat) <= n,
        n <= u64::MAX ==> decimal_text(n).len() <= 20,
    decreases n,
{
    if n >= 10 {
        lemma_decimal_text_len(n / 10);
        lemma_decimal_text(n / 10);
        let len = decimal_text(n).len();
        assert(pow10(1) == 10) by {
            reveal_with_fuel(pow10, 2);
        }
        if len > 20 {
            lemma_pow10_monotonic(20, (len - 1) as nat);
            assert(pow10(20) == 100000000000000000000) by {
                reveal_with_fuel(pow10, 21);
            }
        }
    }
}

/// A text of digits writes no less than any of its beginnings.
pub proof fn lemma_text_value_grows(text: Seq<char>, upto: int)
    requires
        0 <= upto <= text.len(),
    ensures
        text_value(text.subrange(0, upto)) <= text_value(text),
    decreases text.len() - upto,
{
    if upto == text.len() {
        assert(text.subrange(0, upto) =~= text);
    } else {
        let front = text.drop_last();
        lemma_text_value_grows(front, upto);
        assert(front.subrange(0, upto) =~= text.subrange(0, upto));
    }
}

/// The kinds of channel that the broker offers for each market.
#[derive(Clone, Copy, Debug, PartialEq, Eq, Structural)]
pub enum ChannelKind {
    Orders,
    Fills,
    PriceLevels,
}

/// The number of channel kinds.
pub const CHANNEL_KINDS: usize = 3;

/// The longest channel name: the longest kind, a colon and twenty digits.
pub const MAX_CHANNEL_NAME: usize = 33;

impl ChannelKind {
    /// The kind as channel names spell it.
    pub open spec fn spec_prefix(self) -> Seq<char> {
        match self {
            ChannelKind::Orders => "orders"@,
            ChannelKind::Fills => "fills"@,
            ChannelKind::PriceLevels => "price_levels"@,
        }
    }

    /// The kind as channel names spell it.
    pub fn prefix(self) -> (r: &'static str)
        ensures
            r@ == self.spec_prefix(),
    {
        match self {
            ChannelKind::Orders => "orders",
            ChannelKind::Fills => "fills",
            ChannelKind::PriceLevels => "price_levels",
        }
    }

    /// The kind at a position: orders, fills, price levels.
    pub open spec fn spec_at(index: int) -> ChannelKind {
        if index == 0 {
            ChannelKind::Orders
        } else if index == 1 {
            ChannelKind::Fills
        } else {
            ChannelKind::PriceLevels
        }
    }

    /// The kind at a position, where the position is below
    /// [`CHANNEL_KINDS`].
    pub fn at(index: usize) -> (r: Option<ChannelKind>)
        ensures
            r == if index < CHANNEL_KINDS {
                Some(Self::spec_at(index as int))
            } else {
                None
            },
    {
        if index == 0 {
            Some(ChannelKind::Orders)
        } else if index == 1 {
            Some(ChannelKind::Fills)
        } else if index == 2 {
            Some(ChannelKind::PriceLevels)
        } else {
            None
        }
    }
}

/// The kinds are spelt in six, five and twelve letters.
pub proof fn lemma_prefix_len(kind: ChannelKind)
    ensures
        kind.spec_prefix().len() == match kind {
            ChannelKind::Orders => 6nat,
            ChannelKind::Fills => 5nat,
            ChannelKind::PriceLevels => 12nat,
        },
{
    reveal_strlit("orders");
    reveal_strlit("fills");
    reveal_strlit("price_levels");
}

/// A channel: one kind of event for one market.
#[derive(Clone, Copy, Debug, PartialEq, Eq, Structural)]
pub struct Channel {
    pub kind: ChannelKind,
    pub market_id: u64,
}

/// The text of one digit.
fn digit_text(d: u8) -> (r: &'static str)
    requires
        d < 10,
    ensures
        r@ == seq![digit_char(d as nat)],
{
    proof {
        reveal_strlit("0");
        reveal_strlit("1");
        reveal_strlit("2");
        reveal_strlit("3");
        reveal_strlit("4");
        reveal_strlit("5");
        reveal_strlit("6");
        reveal_strlit("7");
        reveal_strlit("8");
        reveal_strlit("9");
    }
    let r = if d == 0 {
        "0"
    } else if d == 1 {
        "1"
    } else if d == 2 {
        "2"
    } else if d == 3 {
        "3"
    } else if d == 4 {
        "4"
    } else if d == 5 {
        "5"
    } else if d == 6 {
        "6"
    } else if d == 7 {
        "7"
    } else if d == 8 {
        "8"
    } else {
        "9"
    };
    r
}

/// Appends the decimal text of `n`.
fn push_decimal(text: &mut String, n: u64)
    ensures
        final(text)@ == old(text)@ + decimal_text(n as nat),
    decreases n,
{
    if n >= 10 {
        push_decimal(text, n / 10);
    }
    text.append(digit_text((n % 10) as u8));
}

/// The digit that a character writes, if it is one.
fn digit_value(c: char) -> (r: Option<u8>)
    ensures
        r is Some <==> is_digit(c),
        r matches Some(d) ==> d == digit_of(c) && d < 10,
{
    if '0' <= c && c <= '9' {
        Some((c as u32 - 48) as u8)
    } else {
        None
    }
}

impl Channel {
    /// The name of the channel: the kind, a colon, the market in decimal.
    pub open spec fn spec_name(self) -> Seq<char> {
        self.kind.spec_prefix() + seq![':'] + decimal_text(self.market_id as nat)
    }

    /// The channel that has this name, if one has it.
    pub open spec fn of_name(name: Seq<char>) -> Option<Channel> {
        if exists|channel: Channel| channel.spec_name() == name {
            Some(choose|channel: Channel| channel.spec_name() == name)
        } else {
            None
        }
    }

    /// The name of the channel at the broker.
    pub fn name(&self) -> (r: String)
        ensures
            r@ == self.spec_name(),
    {
        let mut text = String::from_str(self.kind.prefix());
        proof {
            reveal_strlit(":");
        }
        text.append(":");
        push_decimal(&mut text, self.market_id);
        text
    }

    /// Reads a channel from its name. Only the names that [`Channel::name`]
    /// writes are read: a known kind, one colon, and a market id in decimal
    /// without sign or leading zeros that fits in 64 bits.
    pub fn parse(name: &str) -> (r: Option<Channel>)
        ensures
            match r {
                Some(channel) => name@ == channel.spec_name(),
                None => forall|channel: Channel| name@ != channel.spec_name(),
            },
            r == Self::of_name(name@),
    {
        let r = Self::read(name);
        proof {
            if let Some(channel) = r {
                let chosen = choose|channel: Channel| channel.spec_name() == name@;
                if chosen != channel {
                    lemma_names_are_distinct(chosen, channel);
                }
            }
        }
        r
    }

    fn read(name: &str) -> (r: Option<Channel>)
        ensures
            match r {
                Some(channel) => name@ == channel.spec_name(),
                None => forall|channel: Channel| name@ != channel.spec_name(),
            },
    {
        let len = name.unicode_len();
        if len > MAX_CHANNEL_NAME {
            proof {
                assert forall|channel: Channel| name@ != channel.spec_name() by {
                    lemma_name_shape(channel);
                }
            }
            return None;
        }
        // The digits at the end of the name.
        let mut start: usize = len;
        loop
            invariant
                len == name@.len(),
                start <= len,
                forall|i: int| start <= i < len ==> is_digit(#[trigger] name@[i]),
            ensures
                start == 0 || !is_digit(name@[start - 1]),
            decreases start,
        {
            if start == 0 {
                break ;
            }
            if digit_value(name.get_char(start - 1)).is_none() {
                break ;
            }
            start -= 1;
        }
        proof {
            assert forall|channel: Channel| name@ == #[trigger] channel.spec_name() implies start
                + decimal_text(channel.market_id as nat).len() == len by {
                lemma_name_shape(channel);
            }
        }
        // The number that they write.
        let mut value: u64 = 0;
        let mut i: usize = start;
        let ghost digits = name@.subrange(start as int, len as int);
        while i < len
            invariant
                len == name@.len(),
                start <= i <= len,
                digits == name@.subrange(start as int, len as int),
                forall|j: int| start <= j < len ==> is_digit(#[trigger] name@[j]),
                forall|channel: Channel|
                    name@ == #[trigger] channel.spec_name() ==> start + decimal_text(
                        channel.market_id as nat,
                    ).len() == len,
                value == text_value(digits.subrange(0, i - start)),
            decreases len - i,
        {
            let d = match digit_value(name.get_char(i)) {
                Some(d) => d,
                None => {
                    return None;
                },
            };
            proof {
                let upto = digits.subrange(0, i + 1 - start);
                assert(upto.drop_last() =~= digits.subrange(0, i - start));
                lemma_text_value_grows(digits, i + 1 - start);
            }
            if value > (u64::MAX - d as u64) / 10 {
                proof {
                    assert forall|channel: Channel| name@ != channel.spec_name() by {
                        if name@ == channel.spec_name() {
                            lemma_name_shape(channel);
                        }
                    }
                }
                return None;
            }
            value = value * 10 + d as u64;
            i += 1;
        }
        assert(digits.subrange(0, len - start) =~= digits);
        let owned = name.to_owned();
        let mut k: usize = 0;
        while k < CHANNEL_KINDS
            invariant
                k <= CHANNEL_KINDS,
                owned@ == name@,
                forall|j: int|
                    0 <= j < k ==> name@ != (Channel {
                        kind: #[trigger] ChannelKind::spec_at(j),
                        market_id: value,
                    }).spec_name(),
            decreases CHANNEL_KINDS - k,
        {
            if let Some(kind) = ChannelKind::at(k) {
                let candidate = Channel { kind, market_id: value };
                if candidate.name() == owned {
                    return Some(candidate);
                }
            }
            k += 1;
        }
        proof {
            assert forall|channel: Channel| name@ != channel.spec_name() by {
                if name@ == channel.spec_name() {
                    lemma_name_shape(channel);
                    let j = match channel.kind {
                        ChannelKind::Orders => 0int,
                        ChannelKind::Fills => 1int,
                        ChannelKind::PriceLevels => 2int,
                    };
                    assert(channel == Channel { kind: ChannelKind::spec_at(j), market_id: value });
                }
            }
        }
        None
    }
}

/// The shape of a channel name: a colon stands before the digits of the
/// market, which end the name, and the name is short.
pub proof fn lemma_name_shape(channel: Channel)
    ensures
        ({
            let name = channel.spec_name();
            let digits = decimal_text(channel.market_id as nat);
            let colon = name.len() - digits.len() - 1;
            &&& 1 <= digits.len() <= 20
            &&& name.len() == channel.kind.spec_prefix().len() + 1 + digits.len()
            &&& name.len() <= MAX_CHANNEL_NAME
            &&& name[colon] == ':'
            &&& name.subrange(colon + 1, name.len() as int) == digits
            &&& forall|i: int| colon < i < name.len() ==> is_digit(#[trigger] name[i])
            &&& text_value(digits) == channel.market_id
        }),
{
    let name = channel.spec_name();
    let digits = decimal_text(channel.market_id as nat);
    let colon = name.len() - digits.len() - 1;
    lemma_decimal_text(channel.market_id as nat);
    lemma_decimal_text_len(channel.market_id as nat);
    lemma_prefix_len(channel.kind);
    assert forall|i: int| colon < i < name.len() implies is_digit(#[trigger] name[i]) by {
    }
}

/// Distinct channels have distinct names.
pub proof fn lemma_names_are_distinct(a: Channel, b: Channel)
    requires
        a != b,
    ensures
        a.spec_name() != b.spec_name(),
{
    if a.spec_name() == b.spec_name() {
        lemma_name_shape(a);
        lemma_name_shape(b);
        lemma_prefix_len(a.kind);
        lemma_prefix_len(b.kind);
    }
}

/// A channel is read back from its own name.
pub proof fn lemma_name_parses_back(channel: Channel)
    ensures
        Channel::of_name(channel.spec_name()) == Some(channel),
{
    let chosen = choose|other: Channel| other.spec_name() == channel.spec_name();
    if chosen != channel {
        lemma_names_are_distinct(chosen, channel);
    }
}

} // verus!
