//! The decisions of the background watcher that starts the tray service when
//! supported earbuds connect.

use vstd::prelude::*;

use crate::devices::{known_profile_name, matches_known_profile};
use crate::mac::MacAddress;
use crate::text::text_eq;

verus! {

/// Whether the paired device at `address`, advertising `name`, is the one to
/// watch: the configured address when one is set, else any device whose name
/// is a supported model's.
pub fn is_watch_target(address: &MacAddress, configured: Option<MacAddress>, name: Option<&str>) -> (target:
    bool)
    ensures
        target == match configured {
            Some(c) => address.octets@ == c.octets@,
            None => name matches Some(n) && known_profile_name(n@),
        },
{
    match configured {
        Some(c) => address.same_as(&c),
        None => match name {
            Some(n) => matches_known_profile(n),
            None => false,
        },
    }
}

/// The tray service is started when the earbuds go from disconnected to
/// connected.
pub fn should_launch(connected: bool, was_connected: bool) -> (launch: bool)
    ensures
        launch == (connected && !was_connected),
{
    connected && !was_connected
}

/// Whether another process of this program, started with `argument` as its
/// first argument, is a window or tray instance (started with no argument or
/// with `--tray-only`).
pub fn is_app_instance(argument: Option<&str>) -> (instance: bool)
    ensures
        instance == match argument {
            None => true,
            Some(a) => a@ == "--tray-only"@,
        },
{
    match argument {
        None => true,
        Some(a) => text_eq(a, "--tray-only"),
    }
}

/// Whether another process of this program, started with `argument` as its
/// first argument, is the background watcher.
pub fn is_watcher_instance(argument: Option<&str>) -> (watcher: bool)
    ensures
        watcher == match argument {
            None => false,
            Some(a) => a@ == "--watch"@,
        },
{
    match argument {
        None => false,
        Some(a) => text_eq(a, "--watch"),
    }
}

/// `w` as a word list: nothing when it is empty, else the one word.
pub open spec fn word_if_any(w: Seq<u8>) -> Seq<Seq<u8>> {
    if w.len() == 0 {
        Seq::empty()
    } else {
        seq![w]
    }
}

/// The words of `s` when the word `current` is already under way: a NUL
/// byte ends a word, and empty words are dropped.
pub open spec fn words_from(s: Seq<u8>, current: Seq<u8>) -> Seq<Seq<u8>>
    decreases s.len(),
{
    if s.len() == 0 {
        word_if_any(current)
    } else if s[0] == 0 {
        word_if_any(current) + words_from(s.drop_first(), Seq::empty())
    } else {
        words_from(s.drop_first(), current.push(s[0]))
    }
}

/// The words of a process's command line as `/proc` stores it: the runs of
/// non-NUL bytes, in order.
pub open spec fn command_line_words_spec(s: Seq<u8>) -> Seq<Seq<u8>> {
    words_from(s, Seq::empty())
}

pub open spec fn word_views(words: Seq<Vec<u8>>) -> Seq<Seq<u8>> {
    words.map_values(|w: Vec<u8>| w@)
}

/// Splits a process's command line, as `/proc/<pid>/cmdline` holds it, into
/// its words: the first is the program, the next its first argument.
pub fn command_line_words(cmdline: &[u8]) -> (words: Vec<Vec<u8>>)
    ensures
        word_views(words@) == command_line_words_spec(cmdline@),
{
    let mut words: Vec<Vec<u8>> = Vec::new();
    let mut current: Vec<u8> = Vec::new();
    let n = cmdline.len();
    let mut i: usize = 0;
    assert(cmdline@.subrange(0, n as int) =~= cmdline@);
    assert(word_views(words@) =~= Seq::<Seq<u8>>::empty());
    while i < n
        invariant
            n == cmdline@.len(),
            i <= n,
            word_views(words@) + words_from(cmdline@.subrange(i as int, n as int), current@)
                == command_line_words_spec(cmdline@),
        decreases n - i,
    {
        let ghost rest = cmdline@.subrange(i as int, n as int);
        let ghost before = word_views(words@);
        let ghost cur = current@;
        assert(rest.drop_first() =~= cmdline@.subrange(i + 1, n as int));
        assert(rest[0] == cmdline@[i as int]);
        if cmdline[i] == 0 {
            if current.len() > 0 {
                words.push(current);
                current = Vec::new();
                assert(word_views(words@) =~= before + word_if_any(cur));
            } else {
                assert(before + word_if_any(cur) =~= before);
            }
            assert(current@ =~= Seq::<u8>::empty());
            assert(word_views(words@) == before + word_if_any(cur));
            assert((before + word_if_any(cur)) + words_from(rest.drop_first(), Seq::empty())
                =~= before + (word_if_any(cur) + words_from(rest.drop_first(), Seq::empty())));
        } else {
            current.push(cmdline[i]);
        }
        i = i + 1;
    }
    let ghost before = word_views(words@);
    let ghost cur = current@;
    assert(cmdline@.subrange(n as int, n as int) =~= Seq::<u8>::empty());
    if current.len() > 0 {
        words.push(current);
        assert(word_views(words@) =~= before + word_if_any(cur));
    } else {
        assert(before + word_if_any(cur) =~= before);
        assert(word_views(words@) =~= before + word_if_any(cur));
    }
    words
}

} // verus!
