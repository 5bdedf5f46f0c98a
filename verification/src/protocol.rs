//! The line protocol: classification of per-read failures, parsing of the
//! two-character move lines, trimming of name lines, and encoding of
//! outbound messages as one ASCII line each.

use vstd::prelude::*;

use crate::game::{ToClientMessage, WinState};
use crate::geometry::Direction;

verus! {

/// A recoverable, protocol-level failure of a single client read. Transport
/// errors are a separate, fatal channel and never classified here.
#[derive(Debug, Copy, Clone, PartialEq, Eq, Structural)]
pub enum ClientRecvFailure {
    ClientTimeoutReached,
    ParseError,
    Eof,
}

/// Whitespace as the name phase trims it. The protocol is byte-oriented
/// ASCII, so the class is deliberately the ASCII whitespace bytes (space,
/// tab, line feed, carriage return) rather than any wider character class.
pub open spec fn is_space(b: u8) -> bool {
    b == 32 || b == 9 || b == 10 || b == 13
}

/// `s` with its trailing whitespace removed.
pub open spec fn trim_end_spec(s: Seq<u8>) -> Seq<u8>
    decreases s.len(),
{
    if s.len() > 0 && is_space(s[s.len() - 1]) {
        trim_end_spec(s.subrange(0, s.len() - 1))
    } else {
        s
    }
}

/// Whether `b` is ASCII whitespace.
pub fn is_space_byte(b: u8) -> (r: bool)
    ensures
        r == is_space(b),
{
    b == 32 || b == 9 || b == 10 || b == 13
}

/// Returns `line` with trailing ASCII whitespace removed, as applied to a
/// received name line: the line terminator and any spacing before it go,
/// anything earlier — leading whitespace included — stays.
pub fn trim_line(line: &[u8]) -> (r: Vec<u8>)
    ensures
        r@ == trim_end_spec(line@),
{
    proof {
        assert(line@.subrange(0, line@.len() as int) =~= line@);
    }
    let mut end: usize = line.len();
    while end > 0 && is_space_byte(line[end - 1])
        invariant
            end <= line@.len(),
            trim_end_spec(line@) == trim_end_spec(line@.subrange(0, end as int)),
        decreases end,
    {
        proof {
            let part = line@.subrange(0, end as int);
            assert(part.subrange(0, part.len() - 1) =~= line@.subrange(0, end - 1));
        }
        end -= 1;
    }
    proof {
        assert(trim_end_spec(line@) == line@.subrange(0, end as int));
    }
    let mut r: Vec<u8> = Vec::new();
    let mut i: usize = 0;
    while i < end
        invariant
            i <= end <= line@.len(),
            r@ =~= line@.subrange(0, i as int),
        decreases end - i,
    {
        r.push(line[i]);
        i += 1;
    }
    proof {
        assert(r@ =~= line@.subrange(0, end as int));
    }
    r
}

/// What a received move line means: a direction exactly when the line is
/// one lowercase direction letter followed by the line terminator, and a
/// parse failure otherwise.
pub open spec fn parse_direction_spec(line: Seq<u8>) -> Result<Direction, ClientRecvFailure> {
    if line.len() == 2 && line[1] == 10 {
        if line[0] == 117 {
            Ok(Direction::Up)
        } else if line[0] == 100 {
            Ok(Direction::Down)
        } else if line[0] == 108 {
            Ok(Direction::Left)
        } else if line[0] == 114 {
            Ok(Direction::Right)
        } else {
            Err(ClientRecvFailure::ParseError)
        }
    } else {
        Err(ClientRecvFailure::ParseError)
    }
}

/// Parses one received move line: exactly two bytes, the first one of `u`,
/// `d`, `l`, `r` (lowercase only), the second the line terminator. Anything
/// else is a parse failure, never a fatal error.
pub fn parse_direction(line: &[u8]) -> (r: Result<Direction, ClientRecvFailure>)
    ensures
        r == parse_direction_spec(line@),
{
    if line.len() != 2 || line[1] != 10 {
        return Err(ClientRecvFailure::ParseError);
    }
    match line[0] {
        117 => Ok(Direction::Up),
        100 => Ok(Direction::Down),
        108 => Ok(Direction::Left),
        114 => Ok(Direction::Right),
        _ => Err(ClientRecvFailure::ParseError),
    }
}

/// The decimal digits of `n`, most significant first, as ASCII bytes.
pub open spec fn dec_spec(n: nat) -> Seq<u8>
    decreases n,
{
    if n < 10 {
        seq![(48 + n) as u8]
    } else {
        dec_spec(n / 10).push((48 + n % 10) as u8)
    }
}

/// One outbound line: a terminal outcome as its uppercase name, an update
/// as two space-separated decimal positions; both newline-terminated.
pub open spec fn encode_spec(m: ToClientMessage) -> Seq<u8> {
    match m {
        ToClientMessage::End(WinState::Win) => seq![87u8, 73u8, 78u8, 10u8],
        ToClientMessage::End(WinState::Loss) => seq![76u8, 79u8, 83u8, 83u8, 10u8],
        ToClientMessage::End(WinState::Tie) => seq![84u8, 73u8, 69u8, 10u8],
        ToClientMessage::Update(a, b) => dec_spec(a as nat) + seq![32u8] + dec_spec(b as nat)
            + seq![10u8],
    }
}

/// The decimal digits of `n`, most significant first, as ASCII bytes.
pub fn encode_decimal(n: u64) -> (r: Vec<u8>)
    ensures
        r@ == dec_spec(n as nat),
    decreases n,
{
    if n < 10 {
        let mut v: Vec<u8> = Vec::new();
        v.push(48 + (n as u8));
        proof {
            assert(v@ =~= dec_spec(n as nat));
        }
        v
    } else {
        let mut v = encode_decimal(n / 10);
        v.push(48 + ((n % 10) as u8));
        proof {
            assert(v@ =~= dec_spec(n as nat));
        }
        v
    }
}

/// Encodes one outbound message as the single text line the wire protocol
/// sends: `WIN`, `LOSS` or `TIE` for a terminal outcome, or the two
/// positions as space-separated decimal integers.
pub fn encode_message(upd: ToClientMessage) -> (r: Vec<u8>)
    ensures
        r@ == encode_spec(upd),
{
    match upd {
        ToClientMessage::End(state) => {
            let mut v: Vec<u8> = Vec::new();
            match state {
                WinState::Win => {
                    v.push(87);
                    v.push(73);
                    v.push(78);
                },
                WinState::Loss => {
                    v.push(76);
                    v.push(79);
                    v.push(83);
                    v.push(83);
                },
                WinState::Tie => {
                    v.push(84);
                    v.push(73);
                    v.push(69);
                },
            }
            v.push(10);
            proof {
                assert(v@ =~= encode_spec(upd));
            }
            v
        },
        ToClientMessage::Update(this, theirs) => {
            let mut v = encode_decimal(this as u64);
            v.push(32);
            let mut w = encode_decimal(theirs as u64);
            v.append(&mut w);
            v.push(10);
            proof {
                assert((this as u64) as nat == this as nat);
                assert((theirs as u64) as nat == theirs as nat);
                assert(v@ =~= encode_spec(upd));
            }
            v
        },
    }
}

} // verus!
