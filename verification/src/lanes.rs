//! The lanes: one column of the game each, and how a lane list is read
//! from text.

use crate::error::{ConfigError, ConfigErrorView};
use crate::text::{parse_i32, parse_i32_spec, split_once, split_once_spec, trim, trim_str};
use vstd::prelude::*;
use vstd::string::StrSliceExecFns;
use vstd::string::StringExecFns;

verus! {

/// One column of the game: where its pixel is sampled and which key it
/// presses.
#[derive(Clone, Copy, Debug, PartialEq, Eq, Structural)]
pub struct Lane {
    /// Horizontal screen coordinate of the sampled pixel.
    pub x: i32,
    /// Virtual-key code of the lane's key.
    pub vk: u16,
    /// Hardware scan code of the key; 0 where none is known.
    pub scan: u16,
}

/// Whether `c` is an ASCII letter or digit.
pub open spec fn is_ascii_alphanumeric(c: char) -> bool {
    let u = c as u32;
    (0x30 <= u <= 0x39) || (0x41 <= u <= 0x5A) || (0x61 <= u <= 0x7A)
}

/// The code of `c` as an ASCII capital: a small letter gives its capital,
/// any other character its own code.
pub open spec fn ascii_upper_code(c: char) -> int {
    let u = c as u32;
    if 0x61 <= u <= 0x7A {
        u - 0x20
    } else {
        u as int
    }
}

/// The virtual-key code that the text `key` names. After trimming, the key
/// is one ASCII character, a letter or a digit; its code is that of the digit
/// or of the capital letter.
pub open spec fn parse_vk_spec(key: Seq<char>) -> Result<u16, ConfigErrorView> {
    let k = trim(key);
    if k.len() != 1 || k[0] as u32 >= 0x80 {
        Err(ConfigErrorView::KeyNotSingleChar(k))
    } else if !is_ascii_alphanumeric(k[0]) {
        Err(ConfigErrorView::KeyNotAlphanumeric(k))
    } else {
        Ok(ascii_upper_code(k[0]) as u16)
    }
}

/// Reads a key name: one letter or digit, in either case.
pub fn parse_vk(key: &str) -> (r: Result<u16, ConfigError>)
    ensures
        match r {
            Ok(vk) => parse_vk_spec(key@) == Ok::<u16, ConfigErrorView>(vk),
            Err(e) => parse_vk_spec(key@) == Err::<u16, ConfigErrorView>(e@),
        },
{
    let k = trim_str(key);
    if k.unicode_len() != 1 {
        return Err(ConfigError::KeyNotSingleChar(String::from_str(k)));
    }
    let u: u32 = k.get_char(0) as u32;
    if u >= 0x80 {
        return Err(ConfigError::KeyNotSingleChar(String::from_str(k)));
    }
    let digit = 0x30 <= u && u <= 0x39;
    let upper = 0x41 <= u && u <= 0x5A;
    let lower = 0x61 <= u && u <= 0x7A;
    if !(digit || upper || lower) {
        return Err(ConfigError::KeyNotAlphanumeric(String::from_str(k)));
    }
    if lower {
        Ok((u - 0x20) as u16)
    } else {
        Ok(u as u16)
    }
}

/// The lane that one entry `x:key` describes, with no scan code yet. The
/// entry is cut at its first `:`; the coordinate may have white space round
/// it, and so may the key.
pub open spec fn parse_entry_spec(part: Seq<char>) -> Result<Lane, ConfigErrorView> {
    match split_once_spec(part, ':') {
        None => Err(ConfigErrorView::BadLaneEntry(part)),
        Some((x_str, key_str)) => match parse_i32_spec(trim(x_str)) {
            None => Err(ConfigErrorView::BadCoordinate(x_str)),
            Some(x) => match parse_vk_spec(key_str) {
                Err(e) => Err(e),
                Ok(vk) => Ok(Lane { x, vk, scan: 0 }),
            },
        },
    }
}

/// Reads one lane entry `x:key`.
pub fn parse_entry(part: &str) -> (r: Result<Lane, ConfigError>)
    ensures
        match r {
            Ok(lane) => parse_entry_spec(part@) == Ok::<Lane, ConfigErrorView>(lane),
            Err(e) => parse_entry_spec(part@) == Err::<Lane, ConfigErrorView>(e@),
        },
{
    match split_once(part, ':') {
        None => Err(ConfigError::BadLaneEntry(String::from_str(part))),
        Some((x_str, key_str)) => match parse_i32(trim_str(x_str)) {
            None => Err(ConfigError::BadCoordinate(String::from_str(x_str))),
            Some(x) => match parse_vk(key_str) {
                Err(e) => Err(e),
                Ok(vk) => Ok(Lane { x, vk, scan: 0 }),
            },
        },
    }
}

/// The pieces of `s` between its separators `sep`, in order. A text without
/// a separator is its own single piece.
pub open spec fn split(s: Seq<char>, sep: char) -> Seq<Seq<char>>
    decreases s.len(),
{
    match split_once_spec(s, sep) {
        None => seq![s],
        Some((head, tail)) => seq![head] + split(tail, sep),
    }
}

/// The lanes that the pieces describe, in order. Each piece is trimmed; an
/// empty one is passed over; the first piece that is no lane entry decides
/// the error.
pub open spec fn parse_parts(parts: Seq<Seq<char>>) -> Result<Seq<Lane>, ConfigErrorView>
    decreases parts.len(),
{
    if parts.len() == 0 {
        Ok(Seq::empty())
    } else {
        let part = trim(parts.first());
        if part.len() == 0 {
            parse_parts(parts.drop_first())
        } else {
            match parse_entry_spec(part) {
                Err(e) => Err(e),
                Ok(lane) => prepend(seq![lane], parse_parts(parts.drop_first())),
            }
        }
    }
}

/// `lanes` put in front of the lanes of `rest`; an error stays as it is.
pub open spec fn prepend(lanes: Seq<Lane>, rest: Result<Seq<Lane>, ConfigErrorView>) -> Result<
    Seq<Lane>,
    ConfigErrorView,
> {
    match rest {
        Ok(more) => Ok(lanes + more),
        Err(e) => Err(e),
    }
}

/// The lanes that a lane list such as `731:e,881:r` describes: its
/// comma-separated entries in order, at least one.
pub open spec fn parse_lanes_spec(spec: Seq<char>) -> Result<Seq<Lane>, ConfigErrorView> {
    match parse_parts(split(spec, ',')) {
        Err(e) => Err(e),
        Ok(lanes) => if lanes.len() == 0 {
            Err(ConfigErrorView::NoLanes)
        } else {
            Ok(lanes)
        },
    }
}

/// Whether `vk` is the code of a digit or of a capital letter: the keys that
/// a lane can have.
pub open spec fn is_key_code(vk: u16) -> bool {
    (0x30 <= vk <= 0x39) || (0x41 <= vk <= 0x5A)
}

/// Whether `lane` is as the lane list gives it: a supported key, and no scan
/// code yet.
pub open spec fn is_parsed_lane(lane: Lane) -> bool {
    is_key_code(lane.vk) && lane.scan == 0
}

/// A key that is accepted has the code of a digit or of a capital letter.
pub proof fn lemma_parse_vk_gives_key_code(key: Seq<char>)
    ensures
        parse_vk_spec(key) matches Ok(vk) ==> is_key_code(vk),
{
}

/// Every lane that the pieces give has a supported key and no scan code.
pub proof fn lemma_parse_parts_gives_parsed_lanes(parts: Seq<Seq<char>>)
    ensures
        parse_parts(parts) matches Ok(lanes) ==> forall|i: int|
            0 <= i < lanes.len() ==> is_parsed_lane(#[trigger] lanes[i]),
    decreases parts.len(),
{
    if parts.len() > 0 {
        lemma_parse_parts_gives_parsed_lanes(parts.drop_first());
        let part = trim(parts.first());
        if part.len() > 0 {
            match split_once_spec(part, ':') {
                Some((x_str, key_str)) => {
                    lemma_parse_vk_gives_key_code(key_str);
                },
                None => {},
            }
        }
    }
}

/// A lane list that is accepted gives at least one lane, and every lane has
/// a supported key and no scan code.
pub proof fn lemma_parse_lanes_gives_parsed_lanes(spec: Seq<char>)
    ensures
        parse_lanes_spec(spec) matches Ok(lanes) ==> lanes.len() > 0 && forall|i: int|
            0 <= i < lanes.len() ==> is_parsed_lane(#[trigger] lanes[i]),
{
    lemma_parse_parts_gives_parsed_lanes(split(spec, ','));
}

/// Reads one piece of a lane list and appends its lane, if it holds one, to
/// `lanes`.
fn parse_part(part: &str, lanes: &mut Vec<Lane>, Ghost(rest): Ghost<Seq<Seq<char>>>) -> (r: Result<
    (),
    ConfigError,
>)
    ensures
        match r {
            Ok(()) => prepend(old(lanes)@, parse_parts(seq![part@] + rest)) == prepend(
                final(lanes)@,
                parse_parts(rest),
            ),
            Err(e) => prepend(old(lanes)@, parse_parts(seq![part@] + rest)) == Err::<
                Seq<Lane>,
                ConfigErrorView,
            >(e@),
        },
{
    assert((seq![part@] + rest).drop_first() == rest);
    let entry = trim_str(part);
    if entry.unicode_len() == 0 {
        return Ok(());
    }
    match parse_entry(entry) {
        Err(e) => Err(e),
        Ok(lane) => {
            lanes.push(lane);
            proof {
                match parse_parts(rest) {
                    Ok(more) => {
                        assert(old(lanes)@ + (seq![lane] + more) == lanes@ + more);
                    },
                    Err(_) => {},
                }
            }
            Ok(())
        },
    }
}

/// Reads a lane list: comma-separated entries `x:key`, such as
/// `731:e,881:r,1031:t,1181:y`. The lanes come without scan codes.
pub fn parse_lanes(spec: &str) -> (r: Result<Vec<Lane>, ConfigError>)
    ensures
        match r {
            Ok(lanes) => parse_lanes_spec(spec@) == Ok::<Seq<Lane>, ConfigErrorView>(lanes@),
            Err(e) => parse_lanes_spec(spec@) == Err::<Seq<Lane>, ConfigErrorView>(e@),
        },
{
    let mut lanes: Vec<Lane> = Vec::new();
    let mut rest: &str = spec;
    let ghost whole = parse_parts(split(spec@, ','));
    assert(Seq::<Lane>::empty() + parse_parts(split(spec@, ','))->Ok_0 == parse_parts(
        split(spec@, ','),
    )->Ok_0);
    loop
        invariant_except_break
            whole == prepend(lanes@, parse_parts(split(rest@, ','))),
        invariant
            whole == parse_parts(split(spec@, ',')),
        ensures
            whole == Ok::<Seq<Lane>, ConfigErrorView>(lanes@),
        decreases rest@.len(),
    {
        match split_once(rest, ',') {
            Some((head, tail)) => {
                match parse_part(head, &mut lanes, Ghost(split(tail@, ','))) {
                    Err(e) => {
                        return Err(e);
                    },
                    Ok(()) => {},
                }
                rest = tail;
            },
            None => {
                assert(seq![rest@] + Seq::<Seq<char>>::empty() == seq![rest@]);
                match parse_part(rest, &mut lanes, Ghost(Seq::empty())) {
                    Err(e) => {
                        return Err(e);
                    },
                    Ok(()) => {},
                }
                assert(lanes@ + Seq::<Lane>::empty() == lanes@);
                break ;
            },
        }
    }
    if lanes.len() == 0 {
        Err(ConfigError::NoLanes)
    } else {
        Ok(lanes)
    }
}

} // verus!
