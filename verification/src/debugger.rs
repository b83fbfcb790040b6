//! Breakpoints: the addresses at which the processor hands control to the
//! host before it fetches, given as words of four hexadecimal digits.
use vstd::prelude::*;
use crate::registers::pair;
use hex::FromHex;
use std::collections::HashSet;

verus! {

broadcast use vstd::std_specs::hash::group_hash_axioms;

/// The error of the hexadecimal decoder.
#[verifier::external_type_specification]
#[verifier::external_body]
pub struct ExFromHexError(hex::FromHexError);

/// The words of a text: its maximal runs of characters that are not white
/// space, in their order.
pub uninterp spec fn whitespace_words(text: Seq<char>) -> Seq<Seq<char>>;

/// The value of a hexadecimal digit of either case.
pub open spec fn hex_digit(c: char) -> Option<u8> {
    if '0' <= c <= '9' {
        Some((c as int - '0' as int) as u8)
    } else if 'a' <= c <= 'f' {
        Some((c as int - 'a' as int + 10) as u8)
    } else if 'A' <= c <= 'F' {
        Some((c as int - 'A' as int + 10) as u8)
    } else {
        None
    }
}

/// The two bytes that a word of exactly four hexadecimal digits spells,
/// the first digit of each byte being the upper one.
pub open spec fn hex_pair_of(text: Seq<char>) -> Option<(u8, u8)> {
    if text.len() == 4 && hex_digit(text[0]) is Some && hex_digit(text[1]) is Some && hex_digit(
        text[2],
    ) is Some && hex_digit(text[3]) is Some {
        Some(
            (
                (hex_digit(text[0])->Some_0 * 16 + hex_digit(text[1])->Some_0) as u8,
                (hex_digit(text[2])->Some_0 * 16 + hex_digit(text[3])->Some_0) as u8,
            ),
        )
    } else {
        None
    }
}

/// The address that a word spells, most significant byte first.
pub open spec fn address_of(word: Seq<char>) -> Option<u16> {
    match hex_pair_of(word) {
        Some(bytes) => Some(pair(bytes.0, bytes.1)),
        None => None,
    }
}

/// Whether every word spells an address.
pub open spec fn all_addresses(words: Seq<Seq<char>>) -> bool {
    forall|i: int| 0 <= i < words.len() ==> (#[trigger] address_of(words[i])) is Some
}

/// The addresses that the words spell.
pub open spec fn addresses_of(words: Seq<Seq<char>>) -> Set<u16> {
    Set::new(
        |address: u16|
            exists|i: int| 0 <= i < words.len() && #[trigger] address_of(words[i]) == Some(address),
    )
}

/// The views of a list of strings.
pub open spec fn texts(words: Seq<String>) -> Seq<Seq<char>> {
    Seq::new(words.len(), |i: int| words[i]@)
}

/// `str::split_whitespace`, collected: the words of `text` as owned
/// strings. That the words are the runs between white space is taken from
/// the documentation of the standard library and not proved.
#[verifier::external_body]
fn split_words(text: &str) -> (words: Vec<String>)
    ensures
        texts(words@) == whitespace_words(text@),
{
    text.split_whitespace().map(|word| word.to_string()).collect()
}

/// `<[u8; 2] as hex::FromHex>::from_hex`: decodes a text of exactly four
/// hexadecimal digits into two bytes and fails on every other text. The
/// decoder works on the bytes of the text: it wants four of them, each a
/// digit of either case, and a character outside ASCII is no such byte.
#[verifier::external_body]
fn decode_hex_pair(text: &str) -> (decoded: Result<(u8, u8), hex::FromHexError>)
    ensures
        decoded is Ok <==> hex_pair_of(text@) is Some,
        decoded is Ok ==> Some(decoded->Ok_0) == hex_pair_of(text@),
{
    match <[u8; 2]>::from_hex(text) {
        Ok(bytes) => Ok((bytes[0], bytes[1])),
        Err(error) => Err(error),
    }
}

/// The address that a word of four hexadecimal digits spells.
pub fn u16_fromhex(hex: &str) -> (address: Option<u16>)
    ensures
        address == address_of(hex@),
{
    match decode_hex_pair(hex) {
        Ok(bytes) => Some((bytes.0 as u16) * 256 + (bytes.1 as u16)),
        Err(_) => None,
    }
}

pub struct Debugger {
    pub breakpoints: HashSet<u16>,
}

impl View for Debugger {
    type V = Set<u16>;

    open spec fn view(&self) -> Set<u16> {
        self.breakpoints@
    }
}

impl Debugger {
    /// The breakpoints that the words spell, if each of them spells one.
    pub fn from_words(words: &Vec<String>) -> (made: Option<Debugger>)
        ensures
            made is Some <==> all_addresses(texts(words@)),
            made is Some ==> made->Some_0@ == addresses_of(texts(words@)),
    {
        let mut bps: HashSet<u16> = HashSet::new();
        let mut i: usize = 0;
        while i < words.len()
            invariant
                i <= words@.len(),
                all_addresses(texts(words@).subrange(0, i as int)),
                bps@ == addresses_of(texts(words@).subrange(0, i as int)),
            decreases words@.len() - i,
        {
            let word: &String = &words[i];
            let ghost before = texts(words@).subrange(0, i as int);
            let ghost after = texts(words@).subrange(0, i as int + 1);
            assert(texts(words@)[i as int] == word@);
            match u16_fromhex(word.as_str()) {
                Some(address) => {
                    bps.insert(address);
                    proof {
                        assert(after[i as int] == word@);
                        assert forall|k: int| 0 <= k < after.len() implies (#[trigger] address_of(
                            after[k],
                        )) is Some by {
                            if k < i {
                                assert(after[k] == before[k]);
                            }
                        }
                        assert forall|a: u16| #[trigger]
                            bps@.contains(a) <==> addresses_of(after).contains(a) by {
                            if addresses_of(after).contains(a) {
                                let k = choose|k: int|
                                    0 <= k < after.len() && #[trigger] address_of(after[k])
                                        == Some(a);
                                if k < i {
                                    assert(before[k] == after[k]);
                                    assert(addresses_of(before).contains(a));
                                }
                            }
                            if addresses_of(before).contains(a) {
                                let k = choose|k: int|
                                    0 <= k < before.len() && #[trigger] address_of(before[k])
                                        == Some(a);
                                assert(after[k] == before[k]);
                            }
                        }
                        assert(bps@ =~= addresses_of(after));
                    }
                },
                None => {
                    proof {
                        assert(address_of(texts(words@)[i as int]) is None);
                    }
                    return None;
                },
            }
            i = i + 1;
        }
        assert(texts(words@).subrange(0, i as int) =~= texts(words@));
        Some(Debugger { breakpoints: bps })
    }

    /// The breakpoints that a list of addresses separated by white space
    /// names, each address written as four hexadecimal digits.
    pub fn new(breakpoint_list: &str) -> (debugger: Debugger)
        requires
            all_addresses(whitespace_words(breakpoint_list@)),
        ensures
            debugger@ == addresses_of(whitespace_words(breakpoint_list@)),
    {
        let words: Vec<String> = split_words(breakpoint_list);
        match Debugger::from_words(&words) {
            Some(debugger) => debugger,
            None => Debugger { breakpoints: HashSet::new() },
        }
    }

    /// As `new`, for a list that may hold a word that is no address: then
    /// there is no debugger.
    pub fn parse(breakpoint_list: &str) -> (made: Option<Debugger>)
        ensures
            made is Some <==> all_addresses(whitespace_words(breakpoint_list@)),
            made is Some ==> made->Some_0@ == addresses_of(whitespace_words(breakpoint_list@)),
    {
        let words: Vec<String> = split_words(breakpoint_list);
        let mut i: usize = 0;
        while i < words.len()
            invariant
                i <= words@.len(),
                texts(words@) == whitespace_words(breakpoint_list@),
                forall|k: int| 0 <= k < i ==> (#[trigger] address_of(texts(words@)[k])) is Some,
            decreases words@.len() - i,
        {
            let word: &String = &words[i];
            assert(texts(words@)[i as int] == word@);
            if u16_fromhex(word.as_str()).is_none() {
                return None;
            }
            i = i + 1;
        }
        Some(Debugger::new(breakpoint_list))
    }

    /// Whether `address` is a breakpoint.
    pub fn breaks_at(&self, address: u16) -> (hit: bool)
        ensures
            hit == self@.contains(address),
    {
        self.breakpoints.contains(&address)
    }
}

} // verus!
