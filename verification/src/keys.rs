//! The key sequence Q A Z 1 2 3 that opens the settings window.
use vstd::prelude::*;

verus! {

/// The number of keys in the sequence that opens the settings window.
pub const OPEN_SETTINGS_KEY_SEQ_LEN: usize = 6;

/// The virtual key codes of Q, A, Z, 1, 2, 3 in the order they are typed.
pub open spec fn open_settings_key_seq() -> Seq<u8> {
    seq![12u8, 0u8, 6u8, 18u8, 19u8, 20u8]
}

/// Whether `suffix` is the end of `s`.
pub open spec fn ends_with(s: Seq<u8>, suffix: Seq<u8>) -> bool {
    &&& suffix.len() <= s.len()
    &&& s.subrange(s.len() - suffix.len(), s.len() as int) == suffix
}

/// The key code at position `i` of the sequence.
pub fn open_settings_key(i: usize) -> (k: u8)
    requires
        i < OPEN_SETTINGS_KEY_SEQ_LEN,
    ensures
        k == open_settings_key_seq()[i as int],
{
    match i {
        0 => 12,
        1 => 0,
        2 => 6,
        3 => 18,
        4 => 19,
        _ => 20,
    }
}

/// Whether the keys typed last, oldest first, end with the sequence that opens
/// the settings window. They are compared from the newest key backwards.
pub fn matches_open_settings_seq(last_keys: &[u8]) -> (r: bool)
    ensures
        r == ends_with(last_keys@, open_settings_key_seq()),
        r <==> (last_keys@.len() >= 6 && last_keys@.subrange(
            last_keys@.len() - 6,
            last_keys@.len() as int,
        ) == seq![12u8, 0u8, 6u8, 18u8, 19u8, 20u8]),
{
    let n = last_keys.len();
    let m = OPEN_SETTINGS_KEY_SEQ_LEN;
    if n < m {
        return false;
    }
    let mut i: usize = 1;
    while i <= m
        invariant
            1 <= i <= m + 1,
            m == 6,
            m <= n,
            n == last_keys@.len(),
            forall|j: int|
                1 <= j < i ==> #[trigger] last_keys@[n - j] == open_settings_key_seq()[m - j],
        decreases m + 1 - i,
    {
        if last_keys[n - i] != open_settings_key(m - i) {
            assert(last_keys@.subrange(n - m, n as int)[m - i] != open_settings_key_seq()[m - i]);
            return false;
        }
        i = i + 1;
    }
    assert forall|k: int| 0 <= k < m implies #[trigger] last_keys@.subrange(n - m, n as int)[k]
        == open_settings_key_seq()[k] by {
        assert(last_keys@[n - (m - k)] == open_settings_key_seq()[m - (m - k)]);
    }
    assert(last_keys@.subrange(n - m, n as int) =~= open_settings_key_seq());
    true
}

/// Whatever was typed before, typing Q A Z 1 2 3 ends the history with the
/// sequence; and a history shorter than the sequence never ends with it.
pub proof fn lemma_sequence_after_any_prefix(prefix: Seq<u8>)
    ensures
        ends_with(prefix + open_settings_key_seq(), open_settings_key_seq()),
        prefix.len() < OPEN_SETTINGS_KEY_SEQ_LEN ==> !ends_with(prefix, open_settings_key_seq()),
{
    let s = prefix + open_settings_key_seq();
    assert(s.subrange(s.len() - 6, s.len() as int) =~= open_settings_key_seq());
}

} // verus!
