//! What the setup makes of the operator's answers: the address of the
//! generation service, and the models to add to and to remove from the
//! configuration.

use crate::agents::state_management::{string_views, OllamaModel, OllamaModelView};
use crate::string_map::StringMap;
use crate::text::str_chars;
use crate::DIDMethods;
use vstd::prelude::*;
use vstd::string::*;

verus! {

/// What the address of the generation service begins with.
pub const ADDRESS_SCHEME: &'static str = "http://";

/// The address that the setup proposes.
pub const DEFAULT_ADDRESS: &'static str = "http://localhost:11434";

// ---------------------------------------------------------------------------
//  The address of the generation service
// ---------------------------------------------------------------------------
/// Whether `c` is one of the digits `0` to `9`.
pub open spec fn is_digit(c: char) -> bool {
    '0' <= c && c <= '9'
}

/// The value of a digit, and zero for any other character.
pub open spec fn digit_value(c: char) -> nat {
    if is_digit(c) {
        (c as int - '0' as int) as nat
    } else {
        0
    }
}

/// Whether `text` is made of digits alone.
pub open spec fn all_digits(text: Seq<char>) -> bool {
    forall|i: int| 0 <= i < text.len() ==> is_digit(#[trigger] text[i])
}

/// The number that the digits `digits` write in decimal.
pub open spec fn decimal_value(digits: Seq<char>) -> nat
    decreases digits.len(),
{
    if digits.len() == 0 {
        0
    } else {
        decimal_value(digits.drop_last()) * 10 + digit_value(digits.last())
    }
}

/// Whether `address` names the service at `host` and `port`: it is `host`,
/// a colon, and `port` in decimal digits, with as many leading zeros as one
/// likes, and `host` begins with `http://` and has no colon after that.
pub open spec fn is_address_of(address: Seq<char>, host: Seq<char>, port: u16) -> bool {
    &&& host.len() >= 7
    &&& host.take(7) == ADDRESS_SCHEME@
    &&& forall|i: int| 7 <= i < host.len() ==> #[trigger] host[i] != ':'
    &&& address.len() > host.len() + 1
    &&& address.take(host.len() as int) == host
    &&& address[host.len() as int] == ':'
    &&& all_digits(address.skip(host.len() + 1 as int))
    &&& decimal_value(address.skip(host.len() + 1 as int)) == port
}

/// Whether `address` names a service.
pub open spec fn is_address(address: Seq<char>) -> bool {
    exists|host: Seq<char>, port: u16| is_address_of(address, host, port)
}

/// The view of a parsed address.
pub open spec fn address_view(parsed: Option<(String, u16)>) -> Option<(Seq<char>, u16)> {
    match parsed {
        Some((host, port)) => Some((host@, port)),
        None => None,
    }
}

/// A text that begins with digits writes at least the number that those
/// digits write.
pub proof fn lemma_decimal_value_grows(digits: Seq<char>, shorter: int)
    requires
        0 <= shorter <= digits.len(),
    ensures
        decimal_value(digits.take(shorter)) <= decimal_value(digits),
    decreases digits.len() - shorter,
{
    if shorter < digits.len() {
        let next = digits.take(shorter + 1);
        assert(next.drop_last() =~= digits.take(shorter));
        lemma_decimal_value_grows(digits, shorter + 1);
    } else {
        assert(digits.take(shorter) =~= digits);
    }
}

/// An address names one service at most.
pub proof fn lemma_address_is_unambiguous(
    address: Seq<char>,
    host: Seq<char>,
    port: u16,
    other_host: Seq<char>,
    other_port: u16,
)
    requires
        is_address_of(address, host, port),
        is_address_of(address, other_host, other_port),
    ensures
        host == other_host,
        port == other_port,
{
    let a = host.len() as int;
    let b = other_host.len() as int;
    if a < b {
        assert(other_host[a] == address.take(b)[a]);
        assert(other_host[a] == ':');
    } else if b < a {
        assert(host[b] == address.take(a)[b]);
        assert(host[b] == ':');
    }
}

/// Reads the address of the generation service: `Some` host and port where
/// `address` names a service, and `None` where it does not.
pub fn parse_ollama_address(address: &str) -> (parsed: Option<(String, u16)>)
    ensures
        match parsed {
            Some((host, port)) => is_address_of(address@, host@, port),
            None => !is_address(address@),
        },
{
    let chars = str_chars(address);
    let scheme = str_chars(ADDRESS_SCHEME);
    proof {
        reveal_strlit("http://");
    }
    let len: usize = chars.len();
    if len < 7 {
        return None;
    }
    let mut k: usize = 0;
    while k < 7
        invariant
            k <= 7,
            len == chars@.len(),
            chars@ == address@,
            len >= 7,
            scheme@ == ADDRESS_SCHEME@,
            scheme@.len() == 7,
            forall|j: int| 0 <= j < k ==> chars@[j] == scheme@[j],
        decreases 7 - k,
    {
        if chars[k] != scheme[k] {
            assert forall|host: Seq<char>, port: u16| !is_address_of(address@, host, port) by {
                if is_address_of(address@, host, port) {
                    assert(host.take(7)[k as int] == scheme@[k as int]);
                    assert(address@.take(host.len() as int)[k as int] == host[k as int]);
                }
            }
            return None;
        }
        k += 1;
    }
    let mut colon: usize = 7;
    while colon < len && chars[colon] != ':'
        invariant
            7 <= colon <= len,
            len == chars@.len(),
            chars@ == address@,
            forall|j: int| 7 <= j < colon ==> chars@[j] != ':',
        decreases len - colon,
    {
        colon += 1;
    }
    // Whatever service the address names, its host ends at the first colon
    // behind the scheme.
    assert forall|host: Seq<char>, port: u16| is_address_of(address@, host, port) implies host.len()
        == colon && colon < len by {
        let h = host.len() as int;
        assert(address@[h] == ':');
        if colon < h {
            assert(host[colon as int] == address@.take(h)[colon as int]);
        }
    }
    if colon == len || colon + 1 == len {
        return None;
    }
    let first: usize = colon + 1;
    let ghost digits = chars@.skip(first as int);
    let mut value: u32 = 0;
    let mut i: usize = first;
    assert(digits.take(0) =~= Seq::<char>::empty());
    while i < len
        invariant
            first <= i <= len,
            len == chars@.len(),
            chars@ == address@,
            digits == chars@.skip(first as int),
            first == colon + 1,
            forall|host: Seq<char>, port: u16|
                is_address_of(address@, host, port) ==> host.len() == colon,
            all_digits(digits.take(i - first)),
            value == decimal_value(digits.take(i - first)),
            value <= 65535,
        decreases len - i,
    {
        let c = chars[i];
        proof {
            let next = digits.take(i - first + 1);
            assert(next.drop_last() =~= digits.take(i - first));
            assert(next.last() == c);
            assert(digits[i - first] == c);
        }
        let digit: u32 = match c {
            '0' => 0,
            '1' => 1,
            '2' => 2,
            '3' => 3,
            '4' => 4,
            '5' => 5,
            '6' => 6,
            '7' => 7,
            '8' => 8,
            '9' => 9,
            _ => {
                assert(!is_digit(c));
                assert(!all_digits(digits));
                return None;
            },
        };
        assert(is_digit(c) && digit == digit_value(c));
        value = value * 10 + digit;
        if value > 65535 {
            proof {
                lemma_decimal_value_grows(digits, i - first + 1);
            }
            return None;
        }
        i += 1;
    }
    assert(digits.take(i - first) =~= digits);
    let host = address.substring_char(0, colon).to_string();
    proof {
        assert(host@ =~= address@.take(colon as int));
        assert(host@.take(7) =~= ADDRESS_SCHEME@);
    }
    Some((host, value as u16))
}

// ---------------------------------------------------------------------------
//  The method of the identities
// ---------------------------------------------------------------------------
/// The name under which the setup offers the method `did:key`, the first of
/// its two offers.
pub const KEY_METHOD_LABEL: &'static str = "did:key";

/// The name under which the setup offers the method `did:peer`, the second
/// of its two offers.
pub const PEER_METHOD_LABEL: &'static str = "did:peer";

/// The method that the operator has chosen by the position of its offer: the
/// first offer is `did:key`, and any other choice means `did:peer`.
pub fn did_method_choice(selected: usize) -> (method: DIDMethods)
    ensures
        method == if selected == 0 {
            DIDMethods::Key
        } else {
            DIDMethods::Peer
        },
{
    if selected == 0 {
        DIDMethods::Key
    } else {
        DIDMethods::Peer
    }
}

// ---------------------------------------------------------------------------
//  The models to enable
// ---------------------------------------------------------------------------
/// For each of the models that the service offers, whether it is configured
/// already.
pub open spec fn configured(available: Seq<Seq<char>>, models: Map<Seq<char>, OllamaModelView>) -> Seq<
    bool,
> {
    Seq::new(available.len(), |i: int| models.contains_key(available[i]))
}

/// For each of the models that the service offers, whether it is configured
/// already: these are the models that the setup proposes to enable.
pub fn model_defaults(available: &Vec<String>, models: &StringMap<OllamaModel>) -> (defaults:
    Vec<bool>)
    ensures
        defaults@ == configured(string_views(available@), models@),
{
    let mut defaults: Vec<bool> = Vec::new();
    let mut i: usize = 0;
    while i < available.len()
        invariant
            i <= available@.len(),
            defaults@.len() == i,
            forall|j: int| 0 <= j < i ==> defaults@[j] == models@.contains_key(available@[j]@),
        decreases available@.len() - i,
    {
        defaults.push(models.contains_key(available[i].as_str()));
        i += 1;
    }
    assert(defaults@ =~= configured(string_views(available@), models@));
    defaults
}

/// What the operator's choice among the models means for the configuration.
#[derive(Debug, PartialEq, Eq)]
pub struct ModelSelection {
    /// The models to add, each with a new identity, in the order in which
    /// they were chosen
    pub add: Vec<String>,
    /// The models to remove, in the order in which the service offers them
    pub remove: Vec<String>,
}

/// The names of the models that were chosen.
pub open spec fn chosen(available: Seq<Seq<char>>, selected: Seq<usize>) -> Seq<Seq<char>> {
    Seq::new(selected.len(), |i: int| available[selected[i] as int])
}

/// The names among the first `upto` models that were proposed and not
/// chosen.
pub open spec fn dropped(
    available: Seq<Seq<char>>,
    defaults: Seq<bool>,
    selected: Seq<usize>,
    upto: int,
) -> Seq<Seq<char>>
    decreases upto,
{
    if upto <= 0 {
        Seq::empty()
    } else if defaults[upto - 1] && !selected.contains((upto - 1) as usize) {
        dropped(available, defaults, selected, upto - 1).push(available[upto - 1])
    } else {
        dropped(available, defaults, selected, upto - 1)
    }
}

/// Whether `index` is one of `selected`.
fn is_selected(selected: &Vec<usize>, index: usize) -> (found: bool)
    ensures
        found == selected@.contains(index),
{
    let mut i: usize = 0;
    while i < selected.len()
        invariant
            i <= selected@.len(),
            forall|j: int| 0 <= j < i ==> selected@[j] != index,
        decreases selected@.len() - i,
    {
        if selected[i] == index {
            return true;
        }
        i += 1;
    }
    false
}

/// Works out what the operator's choice means. Of the models `available`
/// that the service offers, the operator has chosen those at the positions
/// `selected`; `defaults` says which were configured before. Every chosen
/// model is to be added, whether it was configured or not, and every model
/// that was configured and is not chosen is to be removed.
pub fn add_ollama_models(available: &Vec<String>, defaults: &Vec<bool>, selected: &Vec<usize>) -> (selection:
    ModelSelection)
    requires
        defaults@.len() == available@.len(),
        forall|i: int| 0 <= i < selected@.len() ==> (#[trigger] selected@[i]) < available@.len(),
    ensures
        string_views(selection.add@) == chosen(string_views(available@), selected@),
        string_views(selection.remove@) == dropped(
            string_views(available@),
            defaults@,
            selected@,
            available@.len() as int,
        ),
{
    let ghost names = string_views(available@);
    let mut add: Vec<String> = Vec::new();
    let mut i: usize = 0;
    while i < selected.len()
        invariant
            i <= selected@.len(),
            names == string_views(available@),
            forall|j: int| 0 <= j < selected@.len() ==> (#[trigger] selected@[j]) < available@.len(),
            add@.len() == i,
            forall|j: int| 0 <= j < i ==> (#[trigger] add@[j])@ == names[selected@[j] as int],
        decreases selected@.len() - i,
    {
        add.push(available[selected[i]].clone());
        i += 1;
    }
    assert(string_views(add@) =~= chosen(names, selected@));
    let mut remove: Vec<String> = Vec::new();
    let mut k: usize = 0;
    assert(string_views(remove@) =~= dropped(names, defaults@, selected@, 0));
    while k < available.len()
        invariant
            k <= available@.len(),
            defaults@.len() == available@.len(),
            names == string_views(available@),
            string_views(remove@) == dropped(names, defaults@, selected@, k as int),
        decreases available@.len() - k,
    {
        if defaults[k] && !is_selected(selected, k) {
            let ghost before = string_views(remove@);
            remove.push(available[k].clone());
            assert(string_views(remove@) =~= before.push(names[k as int]));
        }
        k += 1;
    }
    ModelSelection { add, remove }
}

} // verus!
