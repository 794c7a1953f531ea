//! The payload of a transfer notification: a JSON object with the single key
//! `enter` or `leave` and an empty object as its value.

use vstd::prelude::*;
use crate::error::ContractError;

verus! {

/// What the sender of a transfer asks the vault to do with it.
#[derive(Clone, Copy, Debug, PartialEq, Eq, Structural)]
pub enum Cw20HookMsg {
    /// Deposit the base asset that was sent and mint shares for it.
    Enter,
    /// Burn the shares that were sent and pay out the base asset.
    Leave,
}

/// JSON's insignificant whitespace: space, tab, line feed, carriage return.
pub open spec fn is_whitespace(byte: u8) -> bool {
    byte == 0x20 || byte == 0x09 || byte == 0x0a || byte == 0x0d
}

/// `s` without its leading whitespace.
pub open spec fn skip_whitespace(s: Seq<u8>) -> Seq<u8>
    decreases s.len(),
{
    if s.len() > 0 && is_whitespace(s[0]) {
        skip_whitespace(s.drop_first())
    } else {
        s
    }
}

/// What is left of `s` after optional whitespace and then `token`, or `None`
/// where something else comes first.
pub open spec fn after_token(s: Seq<u8>, token: Seq<u8>) -> Option<Seq<u8>> {
    let rest = skip_whitespace(s);
    if token.is_prefix_of(rest) {
        Some(rest.skip(token.len() as int))
    } else {
        None
    }
}

/// What is left of `s` after each of `tokens` in turn, whitespace allowed
/// before each.
pub open spec fn after_tokens(s: Seq<u8>, tokens: Seq<Seq<u8>>) -> Option<Seq<u8>>
    decreases tokens.len(),
{
    if tokens.len() == 0 {
        Some(s)
    } else {
        match after_token(s, tokens[0]) {
            None => None,
            Some(rest) => after_tokens(rest, tokens.drop_first()),
        }
    }
}

/// Whether `s` is, but for whitespace between them, exactly `tokens`.
pub open spec fn reads_tokens(s: Seq<u8>, tokens: Seq<Seq<u8>>) -> bool {
    match after_tokens(s, tokens) {
        None => false,
        Some(rest) => skip_whitespace(rest).len() == 0,
    }
}

/// The key `"enter"`, quotes included.
pub open spec fn enter_key() -> Seq<u8> {
    seq![0x22u8, 0x65u8, 0x6eu8, 0x74u8, 0x65u8, 0x72u8, 0x22u8]
}

/// The key `"leave"`, quotes included.
pub open spec fn leave_key() -> Seq<u8> {
    seq![0x22u8, 0x6cu8, 0x65u8, 0x61u8, 0x76u8, 0x65u8, 0x22u8]
}

/// The tokens of an object with the single key `key` and an empty object as
/// its value: `{`, the key, `:`, `{`, `}`, `}`.
pub open spec fn variant_tokens(key: Seq<u8>) -> Seq<Seq<u8>> {
    seq![seq![0x7bu8], key, seq![0x3au8], seq![0x7bu8], seq![0x7du8], seq![0x7du8]]
}

/// The instruction that a payload spells.
pub open spec fn spec_parse_hook_payload(payload: Seq<u8>) -> Result<Cw20HookMsg, ContractError> {
    if reads_tokens(payload, variant_tokens(enter_key())) {
        Ok(Cw20HookMsg::Enter)
    } else if reads_tokens(payload, variant_tokens(leave_key())) {
        Ok(Cw20HookMsg::Leave)
    } else {
        Err(ContractError::InvalidHookPayload)
    }
}

/// Skipping whitespace is the same from a whitespace byte and from the byte
/// after it.
proof fn lemma_skip_step(s: Seq<u8>, i: int)
    requires
        0 <= i < s.len(),
        is_whitespace(s[i]),
    ensures
        skip_whitespace(s.skip(i)) == skip_whitespace(s.skip(i + 1)),
{
    assert(s.skip(i).drop_first() =~= s.skip(i + 1));
}

/// The index of the first byte at or after `start` that is not whitespace.
fn first_significant(bytes: &[u8], start: usize) -> (end: usize)
    requires
        start <= bytes@.len(),
    ensures
        start <= end <= bytes@.len(),
        bytes@.skip(end as int) == skip_whitespace(bytes@.skip(start as int)),
{
    let mut i: usize = start;
    while i < bytes.len() && (bytes[i] == 0x20 || bytes[i] == 0x09 || bytes[i] == 0x0a || bytes[i]
        == 0x0d)
        invariant
            start <= i <= bytes@.len(),
            skip_whitespace(bytes@.skip(i as int)) == skip_whitespace(bytes@.skip(start as int)),
        decreases bytes@.len() - i,
    {
        proof {
            lemma_skip_step(bytes@, i as int);
        }
        i = i + 1;
    }
    proof {
        let rest = bytes@.skip(i as int);
        if i < bytes@.len() {
            assert(rest[0] == bytes@[i as int]);
        }
        assert(skip_whitespace(rest) == rest);
    }
    i
}

/// Reads `token` at or after `start`, whitespace allowed before it, and
/// returns the index behind it.
fn read_token(bytes: &[u8], start: usize, token: &Vec<u8>) -> (next: Option<usize>)
    requires
        start <= bytes@.len(),
    ensures
        match next {
            Some(n) => n <= bytes@.len() && after_token(bytes@.skip(start as int), token@) == Some(
                bytes@.skip(n as int),
            ),
            None => after_token(bytes@.skip(start as int), token@) is None,
        },
{
    let begin: usize = first_significant(bytes, start);
    let ghost rest = bytes@.skip(begin as int);
    if token.len() > bytes.len() - begin {
        return None;
    }
    let mut k: usize = 0;
    while k < token.len()
        invariant
            begin <= bytes@.len() <= usize::MAX,
            token@.len() <= bytes@.len() - begin,
            k <= token@.len(),
            rest == bytes@.skip(begin as int),
            rest == skip_whitespace(bytes@.skip(start as int)),
            forall|j: int| 0 <= j < k ==> token@[j] == rest[j],
        decreases token@.len() - k,
    {
        if bytes[begin + k] != token[k] {
            proof {
                assert(rest[k as int] == bytes@[begin + k]);
                assert(!token@.is_prefix_of(rest));
            }
            return None;
        }
        proof {
            assert(rest[k as int] == bytes@[begin + k]);
        }
        k = k + 1;
    }
    proof {
        assert(token@ =~= rest.subrange(0, token@.len() as int));
        assert(token@.is_prefix_of(rest));
        assert(rest.skip(token@.len() as int) =~= bytes@.skip(begin + token@.len()));
    }
    Some(begin + token.len())
}

/// Whether `bytes` spells the object whose single key is `key`.
fn reads_variant(bytes: &[u8], key: Vec<u8>) -> (found: bool)
    ensures
        found == reads_tokens(bytes@, variant_tokens(key@)),
{
    let mut tokens: Vec<Vec<u8>> = Vec::new();
    tokens.push(vec![0x7bu8]);
    tokens.push(key);
    tokens.push(vec![0x3au8]);
    tokens.push(vec![0x7bu8]);
    tokens.push(vec![0x7du8]);
    tokens.push(vec![0x7du8]);
    let ghost all = variant_tokens(key@);
    assert(all.len() == 6);
    assert(forall|j: int| 0 <= j < 6 ==> all[j] == #[trigger] tokens@[j]@);
    assert(bytes@.skip(0) =~= bytes@);
    assert(all.skip(0) =~= all);
    let mut at: usize = 0;
    let mut t: usize = 0;
    while t < tokens.len()
        invariant
            tokens@.len() == 6,
            all == variant_tokens(key@),
            all.len() == 6,
            forall|j: int| 0 <= j < 6 ==> all[j] == #[trigger] tokens@[j]@,
            t <= 6,
            at <= bytes@.len(),
            after_tokens(bytes@, all) == after_tokens(bytes@.skip(at as int), all.skip(t as int)),
        decreases 6 - t,
    {
        let ghost left = all.skip(t as int);
        proof {
            assert(left.len() > 0);
            assert(left[0] == tokens@[t as int]@);
            assert(left.drop_first() =~= all.skip(t + 1));
        }
        let ghost here = bytes@.skip(at as int);
        let read = read_token(bytes, at, &tokens[t]);
        proof {
            assert(after_tokens(here, left) == match after_token(here, left[0]) {
                None => None,
                Some(rest) => after_tokens(rest, left.drop_first()),
            });
        }
        match read {
            None => {
                return false;
            },
            Some(next) => {
                at = next;
            },
        }
        t = t + 1;
    }
    proof {
        assert(all.skip(6).len() == 0);
    }
    let end: usize = first_significant(bytes, at);
    proof {
        assert(bytes@.skip(end as int).len() == bytes@.len() - end);
    }
    end == bytes.len()
}

/// Reads the payload of a transfer notification.
///
/// `{"enter":{}}` asks for a deposit and `{"leave":{}}` for a withdrawal,
/// with any whitespace between the tokens. Every other payload ends in
/// `InvalidHookPayload`.
pub fn parse_hook_payload(payload: &[u8]) -> (parsed: Result<Cw20HookMsg, ContractError>)
    ensures
        parsed == spec_parse_hook_payload(payload@),
{
    if reads_variant(payload, vec![0x22u8, 0x65u8, 0x6eu8, 0x74u8, 0x65u8, 0x72u8, 0x22u8]) {
        Ok(Cw20HookMsg::Enter)
    } else if reads_variant(payload, vec![0x22u8, 0x6cu8, 0x65u8, 0x61u8, 0x76u8, 0x65u8, 0x22u8]) {
        Ok(Cw20HookMsg::Leave)
    } else {
        Err(ContractError::InvalidHookPayload)
    }
}

} // verus!
