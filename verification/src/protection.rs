//! Group protection: content locks, the rank system and its commands, and
//! the classification of incoming messages by content type.
use crate::text::{concat, owned, lowercase, starts_with_spec, str_eq, strip_prefix, to_lowercase, trim, trim_spec};
use vstd::prelude::*;

verus! {

// ---------------------------------------------------------------------
// Lock types
// ---------------------------------------------------------------------

/// The number of lock types.
pub const LOCK_TYPE_COUNT: usize = 19;

/// The main word of lock type `i`.
pub open spec fn lock_main(i: int) -> Seq<char> {
    if i == 0 {
        "link"@
    } else if i == 1 {
        "sticker"@
    } else if i == 2 {
        "gif"@
    } else if i == 3 {
        "video"@
    } else if i == 4 {
        "photo"@
    } else if i == 5 {
        "voice"@
    } else if i == 6 {
        "audio"@
    } else if i == 7 {
        "file"@
    } else if i == 8 {
        "location"@
    } else if i == 9 {
        "contact"@
    } else if i == 10 {
        "forward"@
    } else if i == 11 {
        "mention"@
    } else if i == 12 {
        "hashtag"@
    } else if i == 13 {
        "emoji"@
    } else if i == 14 {
        "profanity"@
    } else if i == 15 {
        "bot"@
    } else if i == 16 {
        "username"@
    } else if i == 17 {
        "anon"@
    } else {
        "game"@
    }
}

/// The abbreviation accepted for lock type `i`.
pub open spec fn lock_synonym(i: int) -> Seq<char> {
    if i == 0 {
        "lnk"@
    } else if i == 1 {
        "stk"@
    } else if i == 2 {
        "gf"@
    } else if i == 3 {
        "vid"@
    } else if i == 4 {
        "pho"@
    } else if i == 5 {
        "vc"@
    } else if i == 6 {
        "au"@
    } else if i == 7 {
        "fl"@
    } else if i == 8 {
        "loc"@
    } else if i == 9 {
        "ct"@
    } else if i == 10 {
        "fwd"@
    } else if i == 11 {
        "mnt"@
    } else if i == 12 {
        "hsh"@
    } else if i == 13 {
        "emj"@
    } else if i == 14 {
        "prf"@
    } else if i == 15 {
        "bt"@
    } else if i == 16 {
        "usr"@
    } else if i == 17 {
        "an"@
    } else {
        "gm"@
    }
}

/// The English label of lock type `i`, used in replies.
pub open spec fn lock_label(i: int) -> Seq<char> {
    if i == 0 {
        "links"@
    } else if i == 1 {
        "stickers"@
    } else if i == 2 {
        "GIFs"@
    } else if i == 3 {
        "videos"@
    } else if i == 4 {
        "photos"@
    } else if i == 5 {
        "voice messages"@
    } else if i == 6 {
        "audio files"@
    } else if i == 7 {
        "files"@
    } else if i == 8 {
        "locations"@
    } else if i == 9 {
        "contacts"@
    } else if i == 10 {
        "forwarded messages"@
    } else if i == 11 {
        "mentions"@
    } else if i == 12 {
        "hashtags"@
    } else if i == 13 {
        "excess emoji"@
    } else if i == 14 {
        "profanity"@
    } else if i == 15 {
        "other bots"@
    } else if i == 16 {
        "username ads"@
    } else if i == 17 {
        "anonymous admin messages"@
    } else {
        "games"@
    }
}

/// Entry `i` of the lock table: (main word, abbreviation, label).
pub fn lock_entry(i: usize) -> (r: (&'static str, &'static str, &'static str))
    requires
        i < LOCK_TYPE_COUNT,
    ensures
        r.0@ == lock_main(i as int),
        r.1@ == lock_synonym(i as int),
        r.2@ == lock_label(i as int),
{
    if i == 0 {
        ("link", "lnk", "links")
    } else if i == 1 {
        ("sticker", "stk", "stickers")
    } else if i == 2 {
        ("gif", "gf", "GIFs")
    } else if i == 3 {
        ("video", "vid", "videos")
    } else if i == 4 {
        ("photo", "pho", "photos")
    } else if i == 5 {
        ("voice", "vc", "voice messages")
    } else if i == 6 {
        ("audio", "au", "audio files")
    } else if i == 7 {
        ("file", "fl", "files")
    } else if i == 8 {
        ("location", "loc", "locations")
    } else if i == 9 {
        ("contact", "ct", "contacts")
    } else if i == 10 {
        ("forward", "fwd", "forwarded messages")
    } else if i == 11 {
        ("mention", "mnt", "mentions")
    } else if i == 12 {
        ("hashtag", "hsh", "hashtags")
    } else if i == 13 {
        ("emoji", "emj", "excess emoji")
    } else if i == 14 {
        ("profanity", "prf", "profanity")
    } else if i == 15 {
        ("bot", "bt", "other bots")
    } else if i == 16 {
        ("username", "usr", "username ads")
    } else if i == 17 {
        ("anon", "an", "anonymous admin messages")
    } else {
        ("game", "gm", "games")
    }
}

/// The first lock type at or after `i` whose main word or abbreviation is
/// exactly `w`.
pub open spec fn lock_index_from(w: Seq<char>, i: int) -> Option<int>
    decreases LOCK_TYPE_COUNT - i,
{
    if i < 0 || i >= LOCK_TYPE_COUNT {
        None
    } else if w == lock_main(i) || w == lock_synonym(i) {
        Some(i)
    } else {
        lock_index_from(w, i + 1)
    }
}

/// Length and first two characters of a word: enough to tell the words of
/// the lock table apart.
spec fn word_key(w: Seq<char>) -> (int, char, char) {
    (w.len() as int, w[0], w[1])
}

proof fn lemma_lock_words_distinct(i: int, k: int)
    requires
        0 <= k < i < LOCK_TYPE_COUNT,
    ensures
        lock_main(i) != lock_main(k),
        lock_main(i) != lock_synonym(k),
        lock_synonym(i) != lock_main(k),
        lock_synonym(i) != lock_synonym(k),
{
    reveal_strlit("link");
    reveal_strlit("sticker");
    reveal_strlit("gif");
    reveal_strlit("video");
    reveal_strlit("photo");
    reveal_strlit("voice");
    reveal_strlit("audio");
    reveal_strlit("file");
    reveal_strlit("location");
    reveal_strlit("contact");
    reveal_strlit("forward");
    reveal_strlit("mention");
    reveal_strlit("hashtag");
    reveal_strlit("emoji");
    reveal_strlit("profanity");
    reveal_strlit("bot");
    reveal_strlit("username");
    reveal_strlit("anon");
    reveal_strlit("game");
    reveal_strlit("lnk");
    reveal_strlit("stk");
    reveal_strlit("gf");
    reveal_strlit("vid");
    reveal_strlit("pho");
    reveal_strlit("vc");
    reveal_strlit("au");
    reveal_strlit("fl");
    reveal_strlit("loc");
    reveal_strlit("ct");
    reveal_strlit("fwd");
    reveal_strlit("mnt");
    reveal_strlit("hsh");
    reveal_strlit("emj");
    reveal_strlit("prf");
    reveal_strlit("bt");
    reveal_strlit("usr");
    reveal_strlit("an");
    reveal_strlit("gm");
    assert(word_key(lock_main(i)) != word_key(lock_main(k)));
    assert(word_key(lock_main(i)) != word_key(lock_synonym(k)));
    assert(word_key(lock_synonym(i)) != word_key(lock_main(k)));
    assert(word_key(lock_synonym(i)) != word_key(lock_synonym(k)));
}

/// The lock type whose main word or abbreviation is exactly `w`.
pub open spec fn lock_index(w: Seq<char>) -> Option<int> {
    lock_index_from(w, 0)
}

proof fn lemma_lock_index_from_finds(w: Seq<char>, j: int, i: int)
    requires
        0 <= j <= i < LOCK_TYPE_COUNT,
        w == lock_main(i) || w == lock_synonym(i),
        forall|k: int| j <= k < i ==> w != lock_main(k) && w != lock_synonym(k),
    ensures
        lock_index_from(w, j) == Some(i),
    decreases i - j,
{
    if j < i {
        lemma_lock_index_from_finds(w, j + 1, i);
    }
}

proof fn lemma_lock_index_from_names(w: Seq<char>, j: int)
    requires
        0 <= j,
    ensures
        lock_index_from(w, j) matches Some(i) ==> j <= i < LOCK_TYPE_COUNT && (w == lock_main(i)
            || w == lock_synonym(i)),
    decreases LOCK_TYPE_COUNT - j,
{
    if j < LOCK_TYPE_COUNT && !(w == lock_main(j) || w == lock_synonym(j)) {
        lemma_lock_index_from_names(w, j + 1);
    }
}

proof fn lemma_lock_main_index_from_finds(w: Seq<char>, j: int, i: int)
    requires
        0 <= j <= i < LOCK_TYPE_COUNT,
        w == lock_main(i),
        forall|k: int| j <= k < i ==> w != lock_main(k),
    ensures
        lock_main_index_from(w, j) == Some(i),
    decreases i - j,
{
    if j < i {
        lemma_lock_main_index_from_finds(w, j + 1, i);
    }
}

/// The lock table has nineteen entries, and every one of them, the last
/// included, is recognised: its main word and its abbreviation both name
/// that entry's main word, and replies about it use that entry's label. A
/// word names a lock type only when it is the main word or the
/// abbreviation of that type.
pub proof fn law_every_lock_type_resolves(i: int, w: Seq<char>)
    requires
        0 <= i < LOCK_TYPE_COUNT,
    ensures
        LOCK_TYPE_COUNT == 19,
        resolve_lock_spec(lock_main(i)) == Some(lock_main(i)),
        resolve_lock_spec(lock_synonym(i)) == Some(lock_main(i)),
        lock_label_spec(lock_main(i)) == lock_label(i),
        resolve_lock_spec(w) matches Some(m) ==> exists|k: int|
            0 <= k < LOCK_TYPE_COUNT && m == lock_main(k) && (w == lock_main(k) || w
                == lock_synonym(k)),
{
    assert forall|k: int| 0 <= k < i implies lock_main(i) != lock_main(k) && lock_main(i)
        != lock_synonym(k) && lock_synonym(i) != lock_main(k) && lock_synonym(i)
        != lock_synonym(k) by {
        lemma_lock_words_distinct(i, k);
    }
    lemma_lock_index_from_finds(lock_main(i), 0, i);
    lemma_lock_index_from_finds(lock_synonym(i), 0, i);
    lemma_lock_main_index_from_finds(lock_main(i), 0, i);
    lemma_lock_index_from_names(w, 0);
    if let Some(k) = lock_index(w) {
        assert(0 <= k < LOCK_TYPE_COUNT && (w == lock_main(k) || w == lock_synonym(k)));
    }
}

/// The main word of the lock type that `w` names exactly, if any.
pub open spec fn resolve_lock_spec(w: Seq<char>) -> Option<Seq<char>> {
    match lock_index(w) {
        Some(i) => Some(lock_main(i)),
        None => None,
    }
}

/// The lock type named exactly by an already lower-cased word.
pub fn resolve_lowercase_lock_type(w: &str) -> (r: Option<&'static str>)
    ensures
        r is Some <==> resolve_lock_spec(w@) is Some,
        r matches Some(x) ==> resolve_lock_spec(w@) == Some(x@),
{
    let mut i: usize = 0;
    while i < LOCK_TYPE_COUNT
        invariant
            i <= LOCK_TYPE_COUNT,
            lock_index(w@) == lock_index_from(w@, i as int),
        decreases LOCK_TYPE_COUNT - i,
    {
        let (main, synonym, _) = lock_entry(i);
        if str_eq(w, main) || str_eq(w, synonym) {
            return Some(main);
        }
        i = i + 1;
    }
    None
}

/// `resolve_lock_type`: the lock type that `word`, lower-cased, names
/// exactly by its main word or abbreviation.
pub fn resolve_lock_type(word: &str) -> (r: Option<&'static str>)
    ensures
        r is Some <==> resolve_lock_spec(lowercase(word@)) is Some,
        r matches Some(x) ==> resolve_lock_spec(lowercase(word@)) == Some(x@),
{
    let w = to_lowercase(word);
    resolve_lowercase_lock_type(w.as_str())
}

/// The label of the lock type whose main word is `lock_type`, or
/// "that content type".
pub open spec fn lock_label_spec(lock_type: Seq<char>) -> Seq<char> {
    match lock_main_index_from(lock_type, 0) {
        Some(i) => lock_label(i),
        None => "that content type"@,
    }
}

/// The first lock type at or after `i` whose main word is `m`.
pub open spec fn lock_main_index_from(m: Seq<char>, i: int) -> Option<int>
    decreases LOCK_TYPE_COUNT - i,
{
    if i < 0 || i >= LOCK_TYPE_COUNT {
        None
    } else if m == lock_main(i) {
        Some(i)
    } else {
        lock_main_index_from(m, i + 1)
    }
}

/// `lock_type_label`: the English label used in replies about a lock type.
pub fn lock_type_label(lock_type: &str) -> (r: &'static str)
    ensures
        r@ == lock_label_spec(lock_type@),
{
    let mut i: usize = 0;
    while i < LOCK_TYPE_COUNT
        invariant
            i <= LOCK_TYPE_COUNT,
            lock_main_index_from(lock_type@, 0) == lock_main_index_from(lock_type@, i as int),
        decreases LOCK_TYPE_COUNT - i,
    {
        let (main, _, label) = lock_entry(i);
        if str_eq(lock_type, main) {
            return label;
        }
        i = i + 1;
    }
    "that content type"
}

// ---------------------------------------------------------------------
// lock / unlock commands
// ---------------------------------------------------------------------

/// `s` without one leading `/`.
pub open spec fn strip_slash(s: Seq<char>) -> Seq<char> {
    if s.len() > 0 && s[0] == '/' {
        s.drop_first()
    } else {
        s
    }
}

/// The command word of a message: trimmed, one leading `/` removed,
/// lower-cased.
pub open spec fn command_word(text: Seq<char>) -> Seq<char> {
    lowercase(strip_slash(trim_spec(text)))
}

/// Lock type named by `rest` after a spaced prefix: trimmed, lower-cased.
pub open spec fn spaced_lock(rest: Seq<char>, is_lock: bool) -> Option<(bool, Seq<char>)> {
    match resolve_lock_spec(lowercase(trim_spec(rest))) {
        Some(m) => Some((is_lock, m)),
        None => None,
    }
}

/// Lock type named by `rest` after a glued prefix: lower-cased.
pub open spec fn glued_lock(rest: Seq<char>) -> Option<Seq<char>> {
    resolve_lock_spec(lowercase(rest))
}

/// What a lock command means, on its lower-cased command word `l`:
/// `unlock X`, `ul X`, `lock X`, `l X` with a space (the answer is final
/// once the prefix matches), then the glued forms `unlockX`, `ulX`,
/// `lockX`, `lX` (tried in turn until one names a lock type).
pub open spec fn lock_command_spec(l: Seq<char>) -> Option<(bool, Seq<char>)> {
    if starts_with_spec(l, "unlock "@) {
        spaced_lock(l.skip("unlock "@.len() as int), false)
    } else if starts_with_spec(l, "ul "@) {
        spaced_lock(l.skip("ul "@.len() as int), false)
    } else if starts_with_spec(l, "lock "@) {
        spaced_lock(l.skip("lock "@.len() as int), true)
    } else if starts_with_spec(l, "l "@) {
        spaced_lock(l.skip("l "@.len() as int), true)
    } else if starts_with_spec(l, "unlock"@) && glued_lock(l.skip("unlock"@.len() as int)) is Some {
        Some((false, glued_lock(l.skip("unlock"@.len() as int))->0))
    } else if starts_with_spec(l, "ul"@) && glued_lock(l.skip("ul"@.len() as int)) is Some {
        Some((false, glued_lock(l.skip("ul"@.len() as int))->0))
    } else if starts_with_spec(l, "lock"@) && glued_lock(l.skip("lock"@.len() as int)) is Some {
        Some((true, glued_lock(l.skip("lock"@.len() as int))->0))
    } else if starts_with_spec(l, "l"@) && glued_lock(l.skip("l"@.len() as int)) is Some {
        Some((true, glued_lock(l.skip("l"@.len() as int))->0))
    } else {
        None
    }
}

proof fn lemma_prefixed(p: Seq<char>, w: Seq<char>)
    ensures
        starts_with_spec(p + w, p),
        (p + w).skip(p.len() as int) == w,
{
    assert((p + w).subrange(0, p.len() as int) =~= p);
    assert((p + w).skip(p.len() as int) =~= w);
}

proof fn lemma_not_prefixed(p: Seq<char>, w: Seq<char>, q: Seq<char>, i: int)
    requires
        0 <= i < p.len(),
        i < q.len(),
        p[i] != q[i],
    ensures
        !starts_with_spec(p + w, q),
{
    if starts_with_spec(p + w, q) {
        assert((p + w).subrange(0, q.len() as int)[i] == (p + w)[i]);
    }
}

/// The lock command forms, on a lower-cased command word: "unlock X" and
/// "ul X" unlock, "lock X" and "l X" lock the type that X (trimmed) names,
/// and nothing else; the glued "unlockX" and "ulX" unlock, "lockX" locks
/// the type that X names (X not starting with a space).
pub proof fn law_lock_command_forms(w: Seq<char>)
    ensures
        ({
            let spaced = |b: bool| match resolve_lock_spec(lowercase(trim_spec(w))) {
                Some(m) => Some((b, m)),
                None => None::<(bool, Seq<char>)>,
            };
            let g = resolve_lock_spec(lowercase(w));
            &&& lock_command_spec("unlock "@ + w) == spaced(false)
            &&& lock_command_spec("ul "@ + w) == spaced(false)
            &&& lock_command_spec("lock "@ + w) == spaced(true)
            &&& lock_command_spec("l "@ + w) == spaced(true)
            &&& (w.len() > 0 && w[0] != ' ' && g is Some) ==> lock_command_spec("unlock"@ + w)
                == Some((false, g->0)) && lock_command_spec("ul"@ + w) == Some((false, g->0))
                && lock_command_spec("lock"@ + w) == Some((true, g->0))
        }),
{
    reveal_strlit("unlock ");
    reveal_strlit("ul ");
    reveal_strlit("lock ");
    reveal_strlit("l ");
    reveal_strlit("unlock");
    reveal_strlit("ul");
    reveal_strlit("lock");
    lemma_prefixed("unlock "@, w);
    lemma_prefixed("ul "@, w);
    lemma_not_prefixed("ul "@, w, "unlock "@, 1);
    lemma_prefixed("lock "@, w);
    lemma_not_prefixed("lock "@, w, "unlock "@, 0);
    lemma_not_prefixed("lock "@, w, "ul "@, 0);
    lemma_prefixed("l "@, w);
    lemma_not_prefixed("l "@, w, "unlock "@, 0);
    lemma_not_prefixed("l "@, w, "ul "@, 0);
    lemma_not_prefixed("l "@, w, "lock "@, 1);
    if w.len() > 0 && w[0] != ' ' {
        lemma_prefixed("unlock"@, w);
        assert(("unlock"@ + w)[6] == w[0]);
        lemma_not_prefixed("unlock"@ + w, seq![], "unlock "@, 6);
        lemma_not_prefixed("unlock"@, w, "ul "@, 1);
        lemma_not_prefixed("unlock"@, w, "lock "@, 0);
        lemma_not_prefixed("unlock"@, w, "l "@, 0);
        assert("unlock"@ + w + seq![] =~= "unlock"@ + w);
        lemma_prefixed("ul"@, w);
        assert(("ul"@ + w)[2] == w[0]);
        lemma_not_prefixed("ul"@, w, "unlock "@, 1);
        lemma_not_prefixed("ul"@ + w, seq![], "ul "@, 2);
        assert("ul"@ + w + seq![] =~= "ul"@ + w);
        lemma_not_prefixed("ul"@, w, "lock "@, 0);
        lemma_not_prefixed("ul"@, w, "l "@, 0);
        lemma_not_prefixed("ul"@, w, "unlock"@, 1);
        lemma_prefixed("lock"@, w);
        assert(("lock"@ + w)[4] == w[0]);
        lemma_not_prefixed("lock"@, w, "unlock "@, 0);
        lemma_not_prefixed("lock"@, w, "ul "@, 0);
        lemma_not_prefixed("lock"@ + w, seq![], "lock "@, 4);
        assert("lock"@ + w + seq![] =~= "lock"@ + w);
        lemma_not_prefixed("lock"@, w, "l "@, 1);
        lemma_not_prefixed("lock"@, w, "unlock"@, 0);
        lemma_not_prefixed("lock"@, w, "ul"@, 0);
    }
}

/// The command word of `text` (see [`command_word`]).
pub fn command_word_of(text: &str) -> (r: String)
    ensures
        r@ == command_word(text@),
{
    let t = trim(text);
    let stripped = match strip_prefix(t.as_str(), "/") {
        Some(s) => s,
        None => t,
    };
    proof {
        reveal_strlit("/");
        if t@.len() > 0 && t@[0] == '/' {
            assert(starts_with_spec(t@, "/"@)) by {
                assert(t@.subrange(0, 1) =~= "/"@);
            }
        } else if starts_with_spec(t@, "/"@) {
            assert(t@.subrange(0, 1)[0] == '/');
        }
    }
    to_lowercase(stripped.as_str())
}

fn resolve_after_space(rest: &str) -> (r: Option<&'static str>)
    ensures
        r is Some <==> resolve_lock_spec(lowercase(trim_spec(rest@))) is Some,
        r matches Some(x) ==> resolve_lock_spec(lowercase(trim_spec(rest@))) == Some(x@),
{
    let t = trim(rest);
    resolve_lock_type(t.as_str())
}

/// A lock command with its command word already computed.
pub fn parse_lock_command_word(l: &str) -> (r: Option<(bool, &'static str)>)
    ensures
        r is Some <==> lock_command_spec(l@) is Some,
        r matches Some(p) ==> lock_command_spec(l@) == Some((p.0, p.1@)),
{
    if let Some(rest) = strip_prefix(l, "unlock ") {
        return match resolve_after_space(rest.as_str()) {
            Some(lt) => Some((false, lt)),
            None => None,
        };
    }
    if let Some(rest) = strip_prefix(l, "ul ") {
        return match resolve_after_space(rest.as_str()) {
            Some(lt) => Some((false, lt)),
            None => None,
        };
    }
    if let Some(rest) = strip_prefix(l, "lock ") {
        return match resolve_after_space(rest.as_str()) {
            Some(lt) => Some((true, lt)),
            None => None,
        };
    }
    if let Some(rest) = strip_prefix(l, "l ") {
        return match resolve_after_space(rest.as_str()) {
            Some(lt) => Some((true, lt)),
            None => None,
        };
    }
    if let Some(rest) = strip_prefix(l, "unlock") {
        if let Some(lt) = resolve_lock_type(rest.as_str()) {
            return Some((false, lt));
        }
    }
    if let Some(rest) = strip_prefix(l, "ul") {
        if let Some(lt) = resolve_lock_type(rest.as_str()) {
            return Some((false, lt));
        }
    }
    if let Some(rest) = strip_prefix(l, "lock") {
        if let Some(lt) = resolve_lock_type(rest.as_str()) {
            return Some((true, lt));
        }
    }
    if let Some(rest) = strip_prefix(l, "l") {
        if let Some(lt) = resolve_lock_type(rest.as_str()) {
            return Some((true, lt));
        }
    }
    None
}

/// `parse_lock_command`: "lock link", "l link", "unlock link", "ul link",
/// and the glued "llink", "ullink", "locklink", "unlocklink"; the result is
/// (lock?, lock type).
pub fn parse_lock_command(text: &str) -> (r: Option<(bool, &'static str)>)
    ensures
        r is Some <==> lock_command_spec(command_word(text@)) is Some,
        r matches Some(p) ==> lock_command_spec(command_word(text@)) == Some((p.0, p.1@)),
{
    let l = command_word_of(text);
    parse_lock_command_word(l.as_str())
}


// ---------------------------------------------------------------------
// Ranks
// ---------------------------------------------------------------------

/// A member's rank in a group, highest first.
#[derive(Debug, Clone, Copy, PartialEq, Eq, Structural)]
pub enum Rank {
    FirstOwner,
    Owner,
    Admin,
    Vip,
    Regular,
}

/// The rank given by a member's entries in the rank tables: the highest
/// one they hold.
pub open spec fn rank_from_flags(first_owner: bool, owner: bool, admin: bool, vip: bool) -> Rank {
    if first_owner {
        Rank::FirstOwner
    } else if owner {
        Rank::Owner
    } else if admin {
        Rank::Admin
    } else if vip {
        Rank::Vip
    } else {
        Rank::Regular
    }
}

/// `get_rank`: the highest rank among the member's table entries.
pub fn get_rank(is_first_owner: bool, is_owner: bool, is_admin: bool, is_vip: bool) -> (r: Rank)
    ensures
        r == rank_from_flags(is_first_owner, is_owner, is_admin, is_vip),
{
    if is_first_owner {
        Rank::FirstOwner
    } else if is_owner {
        Rank::Owner
    } else if is_admin {
        Rank::Admin
    } else if is_vip {
        Rank::Vip
    } else {
        Rank::Regular
    }
}

/// Whether a rank is one of the two owner ranks.
pub open spec fn is_owner_rank(r: Rank) -> bool {
    r == Rank::FirstOwner || r == Rank::Owner
}

/// `can_ban_vip`: only owners may ban a VIP member.
pub fn can_ban_vip(actor_rank: Rank) -> (r: bool)
    ensures
        r == is_owner_rank(actor_rank),
{
    actor_rank == Rank::FirstOwner || actor_rank == Rank::Owner
}

/// A rank command, written as a reply to the target's message.
#[derive(Debug, Clone, Copy, PartialEq, Eq, Structural)]
pub enum RankCommand {
    /// `ad` / `admin`
    MakeAdmin,
    /// `owner` / `own`
    MakeOwner,
    /// `rem` / `remove`: back to a regular member
    RemoveAny,
    /// `rad`: out of the admins only
    RemoveAdmin,
    /// `rowner` / `rown`: from owner to admin
    DemoteOwner,
    /// `vip`
    Vip,
    /// `rvip`
    RemoveVip,
}

/// The rank command that a command word names exactly.
pub open spec fn rank_command_spec(l: Seq<char>) -> Option<RankCommand> {
    if l == "ad"@ || l == "admin"@ {
        Some(RankCommand::MakeAdmin)
    } else if l == "owner"@ || l == "own"@ {
        Some(RankCommand::MakeOwner)
    } else if l == "rem"@ || l == "remove"@ {
        Some(RankCommand::RemoveAny)
    } else if l == "rad"@ {
        Some(RankCommand::RemoveAdmin)
    } else if l == "rowner"@ || l == "rown"@ {
        Some(RankCommand::DemoteOwner)
    } else if l == "vip"@ {
        Some(RankCommand::Vip)
    } else if l == "rvip"@ {
        Some(RankCommand::RemoveVip)
    } else {
        None
    }
}

/// `resolve_rank_command`: the message must be exactly one command word
/// (after trimming, one leading `/` and lower-casing).
pub fn resolve_rank_command(text: &str) -> (r: Option<RankCommand>)
    ensures
        r == rank_command_spec(command_word(text@)),
{
    let l = command_word_of(text);
    resolve_rank_command_word(l.as_str())
}

/// The rank command that an already computed command word names.
pub fn resolve_rank_command_word(w: &str) -> (r: Option<RankCommand>)
    ensures
        r == rank_command_spec(w@),
{
    if str_eq(w, "ad") || str_eq(w, "admin") {
        Some(RankCommand::MakeAdmin)
    } else if str_eq(w, "owner") || str_eq(w, "own") {
        Some(RankCommand::MakeOwner)
    } else if str_eq(w, "rem") || str_eq(w, "remove") {
        Some(RankCommand::RemoveAny)
    } else if str_eq(w, "rad") {
        Some(RankCommand::RemoveAdmin)
    } else if str_eq(w, "rowner") || str_eq(w, "rown") {
        Some(RankCommand::DemoteOwner)
    } else if str_eq(w, "vip") {
        Some(RankCommand::Vip)
    } else if str_eq(w, "rvip") {
        Some(RankCommand::RemoveVip)
    } else {
        None
    }
}

/// The reply to a rank command.
pub enum RankActionResult {
    Accepted(String),
    Denied(String),
    NoTarget,
}

/// A change to the target's entries in the rank tables, in the meaning of
/// the storage layer: `AddOwner` adds a non-first owner entry (ignored when
/// one exists), `RemoveOwner` and `DemoteToRegular` never touch the first
/// owner's entry.
#[derive(Debug, Clone, Copy, PartialEq, Eq, Structural)]
pub enum RankEffect {
    AddAdmin,
    AddOwner,
    RemoveOwner,
    RemoveAdmin,
    DemoteToRegular,
    AddVip,
    RemoveVip,
}

/// What a rank command decides: the reply, and the changes to make to the
/// target's entries, in order.
pub struct RankDecision {
    pub result: RankActionResult,
    pub effects: Vec<RankEffect>,
}

/// The reply to a rank command as (accepted?, text), and its changes.
pub open spec fn rank_decision_spec(
    sender: Option<Rank>,
    target: Option<Rank>,
    name: Seq<char>,
    cmd: RankCommand,
) -> (bool, Seq<char>, Seq<RankEffect>) {
    if sender is None || target is None {
        (false, "خطای داخلی در بررسی رتبه."@, seq![])
    } else {
        let s = sender->0;
        let t = target->0;
        match cmd {
            RankCommand::MakeAdmin => if !is_owner_rank(s) {
                (false, "Only owners can promote members to bot admin."@, seq![])
            } else {
                (true, name + " has been added to the bot admins list."@, seq![RankEffect::AddAdmin])
            },
            RankCommand::MakeOwner => if s != Rank::FirstOwner {
                (false, "Only the first owner can promote members to bot owner."@, seq![])
            } else {
                (true, name + " has been added to the bot owners list."@, seq![RankEffect::AddOwner])
            },
            RankCommand::RemoveAny => if s == Rank::FirstOwner {
                if t == Rank::FirstOwner {
                    (false, "The first owner cannot be removed."@, seq![])
                } else {
                    (true, name + " is now a regular member."@, seq![RankEffect::DemoteToRegular])
                }
            } else if s == Rank::Owner {
                if t != Rank::Admin {
                    (false, "You can only use this on bot admins."@, seq![])
                } else {
                    (true, name + " is now a regular member."@, seq![RankEffect::DemoteToRegular])
                }
            } else {
                (false, "You don't have permission to use this command."@, seq![])
            },
            RankCommand::RemoveAdmin => if s == Rank::FirstOwner {
                (true, name + " is no longer a bot admin."@, seq![RankEffect::RemoveAdmin])
            } else if s == Rank::Owner {
                if t != Rank::Admin {
                    (false, "You can only use this on bot admins."@, seq![])
                } else {
                    (true, name + " is no longer a bot admin."@, seq![RankEffect::RemoveAdmin])
                }
            } else {
                (false, "You don't have permission to use this command."@, seq![])
            },
            RankCommand::DemoteOwner => if s != Rank::FirstOwner {
                (false, "Only the first owner can demote an owner."@, seq![])
            } else if t == Rank::FirstOwner {
                (false, "The first owner cannot be demoted."@, seq![])
            } else {
                (
                    true,
                    name + " has been demoted from owner to admin."@,
                    seq![RankEffect::RemoveOwner, RankEffect::AddAdmin],
                )
            },
            RankCommand::Vip => if !is_owner_rank(s) {
                (false, "Only owners can grant VIP status."@, seq![])
            } else {
                (true, name + " is now a VIP member."@, seq![RankEffect::AddVip])
            },
            RankCommand::RemoveVip => if !is_owner_rank(s) {
                (false, "Only owners can remove VIP status."@, seq![])
            } else {
                (true, name + " is no longer a VIP member."@, seq![RankEffect::RemoveVip])
            },
        }
    }
}

/// Whether a decision matches its specification.
pub open spec fn decision_matches(
    d: RankDecision,
    expected: (bool, Seq<char>, Seq<RankEffect>),
) -> bool {
    &&& d.effects@ == expected.2
    &&& match d.result {
        RankActionResult::Accepted(m) => expected.0 && m@ == expected.1,
        RankActionResult::Denied(m) => !expected.0 && m@ == expected.1,
        RankActionResult::NoTarget => false,
    }
}

fn accept(name: &str, suffix: &str, effects: Vec<RankEffect>) -> (d: RankDecision)
    ensures
        d.effects@ == effects@,
        d.result matches RankActionResult::Accepted(m) && m@ == name@ + suffix@,
{
    RankDecision { result: RankActionResult::Accepted(concat(name, suffix)), effects }
}

fn deny(msg: &str) -> (d: RankDecision)
    ensures
        d.effects@ == Seq::<RankEffect>::empty(),
        d.result matches RankActionResult::Denied(m) && m@ == msg@,
{
    RankDecision { result: RankActionResult::Denied(owned(msg)), effects: Vec::new() }
}

fn one(e: RankEffect) -> (v: Vec<RankEffect>)
    ensures
        v@ == seq![e],
{
    let mut v = Vec::new();
    v.push(e);
    assert(v@ =~= seq![e]);
    v
}

/// `apply_rank_command`: decides a rank command from the sender's and the
/// target's ranks (`None` when the rank could not be read). `target_name`
/// only appears in the reply. The changes it returns are to be applied to
/// the target, in order; a denied command changes nothing.
pub fn apply_rank_command(
    sender_rank: Option<Rank>,
    target_rank: Option<Rank>,
    target_name: &str,
    cmd: RankCommand,
) -> (d: RankDecision)
    ensures
        decision_matches(d, rank_decision_spec(sender_rank, target_rank, target_name@, cmd)),
{
    let (s, t) = match (sender_rank, target_rank) {
        (Some(s), Some(t)) => (s, t),
        _ => {
            return deny("خطای داخلی در بررسی رتبه.");
        },
    };
    let owner = s == Rank::FirstOwner || s == Rank::Owner;
    match cmd {
        RankCommand::MakeAdmin => {
            if !owner {
                return deny("Only owners can promote members to bot admin.");
            }
            accept(target_name, " has been added to the bot admins list.", one(RankEffect::AddAdmin))
        },
        RankCommand::MakeOwner => {
            if s != Rank::FirstOwner {
                return deny("Only the first owner can promote members to bot owner.");
            }
            accept(target_name, " has been added to the bot owners list.", one(RankEffect::AddOwner))
        },
        RankCommand::RemoveAny => {
            if s == Rank::FirstOwner {
                if t == Rank::FirstOwner {
                    return deny("The first owner cannot be removed.");
                }
                accept(target_name, " is now a regular member.", one(RankEffect::DemoteToRegular))
            } else if s == Rank::Owner {
                if t != Rank::Admin {
                    return deny("You can only use this on bot admins.");
                }
                accept(target_name, " is now a regular member.", one(RankEffect::DemoteToRegular))
            } else {
                deny("You don't have permission to use this command.")
            }
        },
        RankCommand::RemoveAdmin => {
            if s == Rank::FirstOwner {
                accept(target_name, " is no longer a bot admin.", one(RankEffect::RemoveAdmin))
            } else if s == Rank::Owner {
                if t != Rank::Admin {
                    return deny("You can only use this on bot admins.");
                }
                accept(target_name, " is no longer a bot admin.", one(RankEffect::RemoveAdmin))
            } else {
                deny("You don't have permission to use this command.")
            }
        },
        RankCommand::DemoteOwner => {
            if s != Rank::FirstOwner {
                return deny("Only the first owner can demote an owner.");
            }
            if t == Rank::FirstOwner {
                return deny("The first owner cannot be demoted.");
            }
            let mut v = one(RankEffect::RemoveOwner);
            v.push(RankEffect::AddAdmin);
            assert(v@ =~= seq![RankEffect::RemoveOwner, RankEffect::AddAdmin]);
            accept(target_name, " has been demoted from owner to admin.", v)
        },
        RankCommand::Vip => {
            if !owner {
                return deny("Only owners can grant VIP status.");
            }
            accept(target_name, " is now a VIP member.", one(RankEffect::AddVip))
        },
        RankCommand::RemoveVip => {
            if !owner {
                return deny("Only owners can remove VIP status.");
            }
            accept(target_name, " is no longer a VIP member.", one(RankEffect::RemoveVip))
        },
    }
}


// ---------------------------------------------------------------------
// The rank tables, as far as one member is concerned, and the laws of the
// rank commands
// ---------------------------------------------------------------------

/// A member's entries in the rank tables of one group. The first owner
/// also has an owner entry.
pub struct Roles {
    pub first_owner: bool,
    pub owner: bool,
    pub admin: bool,
    pub vip: bool,
}

pub open spec fn roles_wf(r: Roles) -> bool {
    r.first_owner ==> r.owner
}

/// The rank that a member's entries give.
pub open spec fn rank_of_roles(r: Roles) -> Rank {
    rank_from_flags(r.first_owner, r.owner, r.admin, r.vip)
}

/// What one change does to a member's entries.
pub open spec fn apply_effect(r: Roles, e: RankEffect) -> Roles {
    match e {
        RankEffect::AddAdmin => Roles { first_owner: r.first_owner, owner: r.owner, admin: true, vip: r.vip },
        RankEffect::AddOwner => Roles { first_owner: r.first_owner, owner: true, admin: r.admin, vip: r.vip },
        RankEffect::RemoveOwner => Roles {
            first_owner: r.first_owner,
            owner: r.first_owner && r.owner,
            admin: r.admin,
            vip: r.vip,
        },
        RankEffect::RemoveAdmin => Roles { first_owner: r.first_owner, owner: r.owner, admin: false, vip: r.vip },
        RankEffect::DemoteToRegular => Roles {
            first_owner: r.first_owner,
            owner: r.first_owner && r.owner,
            admin: false,
            vip: r.vip,
        },
        RankEffect::AddVip => Roles { first_owner: r.first_owner, owner: r.owner, admin: r.admin, vip: true },
        RankEffect::RemoveVip => Roles { first_owner: r.first_owner, owner: r.owner, admin: r.admin, vip: false },
    }
}

/// What a list of changes does, applied in order.
pub open spec fn apply_effects(r: Roles, es: Seq<RankEffect>) -> Roles
    decreases es.len(),
{
    if es.len() == 0 {
        r
    } else {
        apply_effects(apply_effect(r, es[0]), es.drop_first())
    }
}

proof fn lemma_effects_keep_first_owner(r: Roles, es: Seq<RankEffect>)
    requires
        r.first_owner,
        roles_wf(r),
    ensures
        apply_effects(r, es).first_owner,
        roles_wf(apply_effects(r, es)),
    decreases es.len(),
{
    if es.len() > 0 {
        lemma_effects_keep_first_owner(apply_effect(r, es[0]), es.drop_first());
    }
}

/// No rank command, whoever sends it, takes the first owner's rank away:
/// after its changes the first owner is still the first owner.
pub proof fn law_first_owner_is_permanent(
    sender: Option<Rank>,
    target: Roles,
    name: Seq<char>,
    cmd: RankCommand,
)
    requires
        target.first_owner,
        roles_wf(target),
    ensures
        ({
            let after = apply_effects(
                target,
                rank_decision_spec(sender, Some(rank_of_roles(target)), name, cmd).2,
            );
            after.first_owner && rank_of_roles(after) == Rank::FirstOwner
        }),
{
    lemma_effects_keep_first_owner(
        target,
        rank_decision_spec(sender, Some(rank_of_roles(target)), name, cmd).2,
    );
}

/// A refused rank command changes nothing.
pub proof fn law_denied_changes_nothing(
    sender: Option<Rank>,
    target: Option<Rank>,
    name: Seq<char>,
    cmd: RankCommand,
)
    ensures
        !rank_decision_spec(sender, target, name, cmd).0 ==> rank_decision_spec(
            sender,
            target,
            name,
            cmd,
        ).2.len() == 0,
{
}

/// Only owners change ranks: a command from anyone else (or from a sender
/// whose rank could not be read) changes nothing.
pub proof fn law_only_owners_change_ranks(
    sender: Option<Rank>,
    target: Option<Rank>,
    name: Seq<char>,
    cmd: RankCommand,
)
    requires
        !(sender matches Some(s) && is_owner_rank(s)),
    ensures
        rank_decision_spec(sender, target, name, cmd).2.len() == 0,
{
}

/// Only the first owner makes owners.
pub proof fn law_only_first_owner_makes_owners(
    sender: Option<Rank>,
    target: Option<Rank>,
    name: Seq<char>,
    cmd: RankCommand,
)
    requires
        rank_decision_spec(sender, target, name, cmd).2.contains(RankEffect::AddOwner),
    ensures
        sender == Some(Rank::FirstOwner),
{
    let es = rank_decision_spec(sender, target, name, cmd).2;
    let k = choose|k: int| 0 <= k < es.len() && es[k] == RankEffect::AddOwner;
}

/// An owner who is not the first owner can remove only bot admins.
pub proof fn law_owner_removes_only_admins(
    target: Option<Rank>,
    name: Seq<char>,
    cmd: RankCommand,
)
    requires
        cmd == RankCommand::RemoveAny || cmd == RankCommand::RemoveAdmin,
        rank_decision_spec(Some(Rank::Owner), target, name, cmd).2.len() > 0,
    ensures
        target == Some(Rank::Admin),
{
}

/// Who may do what with the rank commands, and what each accepted command
/// changes. `owner` stands for the first owner or an owner:
/// - `admin` and `vip`/`rvip`: accepted exactly from owners;
/// - `owner` and `rowner`: only from the first owner (`rowner` never on
///   the first owner);
/// - `rem`: the first owner on anyone but the first owner, an owner on an
///   admin; `rad`: the first owner on anyone, an owner on an admin.
/// An accepted command replies with the target's name and the command's
/// text; a refused one changes nothing.
pub proof fn law_rank_command_permissions(sender: Rank, target: Rank, name: Seq<char>, cmd: RankCommand)
    ensures
        ({
            let d = rank_decision_spec(Some(sender), Some(target), name, cmd);
            let owner = sender == Rank::FirstOwner || sender == Rank::Owner;
            let first = sender == Rank::FirstOwner;
            &&& cmd == RankCommand::MakeAdmin ==> (d.0 <==> owner) && (d.0 ==> d.2 == seq![
                RankEffect::AddAdmin,
            ] && d.1 == name + " has been added to the bot admins list."@)
            &&& cmd == RankCommand::MakeOwner ==> (d.0 <==> first) && (d.0 ==> d.2 == seq![
                RankEffect::AddOwner,
            ] && d.1 == name + " has been added to the bot owners list."@)
            &&& cmd == RankCommand::RemoveAny ==> (d.0 <==> (first && target != Rank::FirstOwner)
                || (sender == Rank::Owner && target == Rank::Admin)) && (d.0 ==> d.2 == seq![
                RankEffect::DemoteToRegular,
            ] && d.1 == name + " is now a regular member."@)
            &&& cmd == RankCommand::RemoveAdmin ==> (d.0 <==> first || (sender == Rank::Owner
                && target == Rank::Admin)) && (d.0 ==> d.2 == seq![RankEffect::RemoveAdmin] && d.1
                == name + " is no longer a bot admin."@)
            &&& cmd == RankCommand::DemoteOwner ==> (d.0 <==> first && target != Rank::FirstOwner)
                && (d.0 ==> d.2 == seq![RankEffect::RemoveOwner, RankEffect::AddAdmin] && d.1 == name
                + " has been demoted from owner to admin."@)
            &&& cmd == RankCommand::Vip ==> (d.0 <==> owner) && (d.0 ==> d.2 == seq![
                RankEffect::AddVip,
            ] && d.1 == name + " is now a VIP member."@)
            &&& cmd == RankCommand::RemoveVip ==> (d.0 <==> owner) && (d.0 ==> d.2 == seq![
                RankEffect::RemoveVip,
            ] && d.1 == name + " is no longer a VIP member."@)
            &&& !d.0 ==> d.2.len() == 0
            &&& cmd == RankCommand::MakeAdmin && !owner ==> d.1
                == "Only owners can promote members to bot admin."@
            &&& cmd == RankCommand::MakeOwner && !first ==> d.1
                == "Only the first owner can promote members to bot owner."@
            &&& (cmd == RankCommand::RemoveAny || cmd == RankCommand::RemoveAdmin) && !owner ==> d.1
                == "You don't have permission to use this command."@
            &&& (cmd == RankCommand::RemoveAny || cmd == RankCommand::RemoveAdmin) && sender
                == Rank::Owner && target != Rank::Admin ==> d.1
                == "You can only use this on bot admins."@
            &&& cmd == RankCommand::RemoveAny && first && target == Rank::FirstOwner ==> d.1
                == "The first owner cannot be removed."@
            &&& cmd == RankCommand::DemoteOwner && !first ==> d.1
                == "Only the first owner can demote an owner."@
            &&& cmd == RankCommand::DemoteOwner && first && target == Rank::FirstOwner ==> d.1
                == "The first owner cannot be demoted."@
            &&& cmd == RankCommand::Vip && !owner ==> d.1 == "Only owners can grant VIP status."@
            &&& cmd == RankCommand::RemoveVip && !owner ==> d.1
                == "Only owners can remove VIP status."@
        }),
{
}

/// A rank that could not be read, the sender's or the target's, refuses
/// any rank command with the internal-error reply and changes nothing.
pub proof fn law_unreadable_rank_refuses(
    sender: Option<Rank>,
    target: Option<Rank>,
    name: Seq<char>,
    cmd: RankCommand,
)
    requires
        sender is None || target is None,
    ensures
        rank_decision_spec(sender, target, name, cmd) == (
            false,
            "خطای داخلی در بررسی رتبه."@,
            Seq::<RankEffect>::empty(),
        ),
{
}

/// The first owner and every owner grant VIP status to anyone: the `vip`
/// command from either is accepted, and its one change is the target's
/// VIP entry, after which the target has that entry.
pub proof fn law_owners_grant_vip(sender: Rank, target: Roles, name: Seq<char>)
    requires
        sender == Rank::FirstOwner || sender == Rank::Owner,
    ensures
        ({
            let d = rank_decision_spec(
                Some(sender),
                Some(rank_of_roles(target)),
                name,
                RankCommand::Vip,
            );
            &&& d.0
            &&& d.1 == name + " is now a VIP member."@
            &&& d.2 == seq![RankEffect::AddVip]
            &&& apply_effects(target, d.2).vip
        }),
{
    let d = rank_decision_spec(Some(sender), Some(rank_of_roles(target)), name, RankCommand::Vip);
    reveal_with_fuel(apply_effects, 2);
    assert(d.2.drop_first() =~= Seq::<RankEffect>::empty());
}

/// After an owner's `admin` command the target ranks at least as admin.
pub proof fn law_make_admin_outcome(sender: Rank, target: Roles, name: Seq<char>)
    requires
        is_owner_rank(sender),
        roles_wf(target),
    ensures
        ({
            let d = rank_decision_spec(
                Some(sender),
                Some(rank_of_roles(target)),
                name,
                RankCommand::MakeAdmin,
            );
            let r = rank_of_roles(apply_effects(target, d.2));
            d.0 && (r == Rank::FirstOwner || r == Rank::Owner || r == Rank::Admin)
        }),
{
    let d = rank_decision_spec(
        Some(sender),
        Some(rank_of_roles(target)),
        name,
        RankCommand::MakeAdmin,
    );
    reveal_with_fuel(apply_effects, 3);
    assert(d.2.drop_first() =~= Seq::<RankEffect>::empty());
}

/// After the first owner's `remove` command any other member is a VIP or
/// a regular member.
pub proof fn law_remove_outcome(target: Roles, name: Seq<char>)
    requires
        !target.first_owner,
        roles_wf(target),
    ensures
        ({
            let d = rank_decision_spec(
                Some(Rank::FirstOwner),
                Some(rank_of_roles(target)),
                name,
                RankCommand::RemoveAny,
            );
            let r = rank_of_roles(apply_effects(target, d.2));
            d.0 && (r == Rank::Vip || r == Rank::Regular)
        }),
{
    let d = rank_decision_spec(
        Some(Rank::FirstOwner),
        Some(rank_of_roles(target)),
        name,
        RankCommand::RemoveAny,
    );
    reveal_with_fuel(apply_effects, 3);
    assert(d.2.drop_first() =~= Seq::<RankEffect>::empty());
}

/// After the first owner's `rowner` command any other member is an admin.
pub proof fn law_demote_owner_outcome(target: Roles, name: Seq<char>)
    requires
        !target.first_owner,
        roles_wf(target),
    ensures
        ({
            let d = rank_decision_spec(
                Some(Rank::FirstOwner),
                Some(rank_of_roles(target)),
                name,
                RankCommand::DemoteOwner,
            );
            let r = rank_of_roles(apply_effects(target, d.2));
            d.0 && r == Rank::Admin
        }),
{
    let d = rank_decision_spec(
        Some(Rank::FirstOwner),
        Some(rank_of_roles(target)),
        name,
        RankCommand::DemoteOwner,
    );
    reveal_with_fuel(apply_effects, 3);
    assert(d.2.drop_first().drop_first() =~= Seq::<RankEffect>::empty());
}


// ---------------------------------------------------------------------
// The bare word "بات"
// ---------------------------------------------------------------------

/// `is_bare_bot_word`: whether the message, trimmed, is exactly "بات".
pub fn is_bare_bot_word(text: &str) -> (r: bool)
    ensures
        r == (trim_spec(text@) == "بات"@),
{
    let t = trim(text);
    str_eq(t.as_str(), "بات")
}

// ---------------------------------------------------------------------
// Content types of a message
// ---------------------------------------------------------------------

/// What the lock checks read of a Telegram message: which fields are
/// present, whether the sender is a bot, and the `type` of each entity
/// (`None` for an entity without a textual type; `entity_types` is `None`
/// when the message has no entity list).
pub struct MessageFeatures {
    pub has_sticker: bool,
    pub has_animation: bool,
    pub has_video: bool,
    pub has_photo: bool,
    pub has_voice: bool,
    pub has_audio: bool,
    pub has_document: bool,
    pub has_location: bool,
    pub has_venue: bool,
    pub has_contact: bool,
    pub has_game: bool,
    pub has_forward_origin: bool,
    pub has_forward_from: bool,
    pub has_via_bot: bool,
    pub from_is_bot: bool,
    pub has_sender_chat: bool,
    pub entity_types: Option<Vec<Option<String>>>,
}

/// `[name]` when `b` holds, nothing otherwise.
pub open spec fn type_if(b: bool, name: Seq<char>) -> Seq<Seq<char>> {
    if b {
        seq![name]
    } else {
        seq![]
    }
}

/// The lock type an entity of type `t` belongs to, if any.
pub open spec fn entity_kind(t: Option<String>) -> Seq<Seq<char>> {
    match t {
        Some(s) => if s@ == "url"@ || s@ == "text_link"@ {
            seq!["link"@]
        } else if s@ == "mention"@ || s@ == "text_mention"@ {
            seq!["mention"@]
        } else if s@ == "hashtag"@ {
            seq!["hashtag"@]
        } else {
            seq![]
        },
        None => seq![],
    }
}

/// The lock types of a list of entities, in order.
pub open spec fn entity_kinds(es: Seq<Option<String>>) -> Seq<Seq<char>>
    decreases es.len(),
{
    if es.len() == 0 {
        seq![]
    } else {
        entity_kinds(es.drop_last()) + entity_kind(es.last())
    }
}

/// The content types read from a message's fields, in check order.
pub open spec fn field_types_spec(m: MessageFeatures) -> Seq<Seq<char>> {
    type_if(m.has_sticker, "sticker"@) + type_if(m.has_animation, "gif"@) + type_if(m.has_video, "video"@)
        + type_if(m.has_photo, "photo"@) + type_if(m.has_voice, "voice"@) + type_if(m.has_audio, "audio"@)
        + type_if(m.has_document, "file"@) + type_if(m.has_location || m.has_venue, "location"@) + type_if(
        m.has_contact,
        "contact"@,
    ) + type_if(m.has_game, "game"@) + type_if(m.has_forward_origin || m.has_forward_from, "forward"@)
        + type_if(m.has_via_bot, "bot"@) + type_if(m.from_is_bot, "bot"@)
}

/// The content types read from a message's entities.
pub open spec fn entity_types_spec(m: MessageFeatures) -> Seq<Seq<char>> {
    match m.entity_types {
        Some(es) => entity_kinds(es@),
        None => seq![],
    }
}

/// The content types of a message, in the order the checks are made:
/// fields, entities, then an anonymous sender chat.
pub open spec fn content_types_spec(m: MessageFeatures) -> Seq<Seq<char>> {
    field_types_spec(m) + entity_types_spec(m) + type_if(m.has_sender_chat, "anon"@)
}

/// The views of a list of static texts.
pub open spec fn str_views(v: Seq<&str>) -> Seq<Seq<char>> {
    v.map_values(|s: &str| s@)
}

fn push_when(out: &mut Vec<&'static str>, b: bool, name: &'static str)
    ensures
        str_views(final(out)@) == str_views(old(out)@) + type_if(b, name@),
{
    if b {
        out.push(name);
        assert(str_views(out@) =~= str_views(old(out)@) + type_if(b, name@));
    } else {
        assert(str_views(out@) =~= str_views(old(out)@) + type_if(b, name@));
    }
}

fn push_entity_kind(out: &mut Vec<&'static str>, t: &Option<String>)
    ensures
        str_views(final(out)@) == str_views(old(out)@) + entity_kind(*t),
{
    match t {
        Some(s) => {
            let s = s.as_str();
            if str_eq(s, "url") || str_eq(s, "text_link") {
                push_when(out, true, "link");
            } else if str_eq(s, "mention") || str_eq(s, "text_mention") {
                push_when(out, true, "mention");
            } else if str_eq(s, "hashtag") {
                push_when(out, true, "hashtag");
            } else {
                push_when(out, false, "hashtag");
            }
        },
        None => {
            push_when(out, false, "hashtag");
        },
    }
}

fn field_types(m: &MessageFeatures) -> (r: Vec<&'static str>)
    ensures
        str_views(r@) == field_types_spec(*m),
{
    let mut out: Vec<&'static str> = Vec::new();
    assert(str_views(out@) =~= Seq::<Seq<char>>::empty());
    push_when(&mut out, m.has_sticker, "sticker");
    assert(Seq::<Seq<char>>::empty() + type_if(m.has_sticker, "sticker"@) =~= type_if(
        m.has_sticker,
        "sticker"@,
    ));
    push_when(&mut out, m.has_animation, "gif");
    push_when(&mut out, m.has_video, "video");
    push_when(&mut out, m.has_photo, "photo");
    push_when(&mut out, m.has_voice, "voice");
    push_when(&mut out, m.has_audio, "audio");
    push_when(&mut out, m.has_document, "file");
    push_when(&mut out, m.has_location || m.has_venue, "location");
    push_when(&mut out, m.has_contact, "contact");
    push_when(&mut out, m.has_game, "game");
    push_when(&mut out, m.has_forward_origin || m.has_forward_from, "forward");
    push_when(&mut out, m.has_via_bot, "bot");
    push_when(&mut out, m.from_is_bot, "bot");
    out
}

fn push_entity_types(out: &mut Vec<&'static str>, m: &MessageFeatures)
    ensures
        str_views(final(out)@) == str_views(old(out)@) + entity_types_spec(*m),
{
    let ghost before = str_views(out@);
    match &m.entity_types {
        Some(es) => {
            let mut i: usize = 0;
            assert(entity_kinds(es@.subrange(0, 0)) =~= Seq::<Seq<char>>::empty());
            assert(before + Seq::<Seq<char>>::empty() =~= before);
            while i < es.len()
                invariant
                    i <= es@.len(),
                    str_views(out@) == before + entity_kinds(es@.subrange(0, i as int)),
                decreases es.len() - i,
            {
                push_entity_kind(out, &es[i]);
                assert(es@.subrange(0, i + 1).drop_last() =~= es@.subrange(0, i as int));
                assert(es@.subrange(0, i + 1).last() == es@[i as int]);
                i = i + 1;
            }
            assert(es@.subrange(0, es@.len() as int) =~= es@);
        },
        None => {
            assert(before + Seq::<Seq<char>>::empty() =~= before);
        },
    }
}

/// `detect_message_content_types`: the content types of a message, in the
/// order they are checked (a type may appear more than once).
pub fn detect_message_content_types(m: &MessageFeatures) -> (r: Vec<&'static str>)
    ensures
        str_views(r@) == content_types_spec(*m),
{
    let mut out = field_types(m);
    push_entity_types(&mut out, m);
    push_when(&mut out, m.has_sender_chat, "anon");
    out
}

proof fn lemma_entity_kinds_has(es: Seq<Option<String>>, k: int, x: Seq<char>)
    requires
        0 <= k < es.len(),
        entity_kind(es[k]).contains(x),
    ensures
        entity_kinds(es).contains(x),
    decreases es.len(),
{
    let pre = entity_kinds(es.drop_last());
    let last = entity_kind(es.last());
    if k == es.len() - 1 {
        let j = choose|j: int| 0 <= j < last.len() && last[j] == x;
        assert((pre + last)[pre.len() + j] == x);
    } else {
        assert(es.drop_last()[k] == es[k]);
        lemma_entity_kinds_has(es.drop_last(), k, x);
        let j = choose|j: int| 0 <= j < pre.len() && pre[j] == x;
        assert((pre + last)[j] == x);
    }
}

proof fn lemma_entity_kind_of(t: Option<String>)
    requires
        t is Some,
    ensures
        (t->0@ == "url"@ || t->0@ == "text_link"@) ==> entity_kind(t) == seq!["link"@],
        (t->0@ == "mention"@ || t->0@ == "text_mention"@) ==> entity_kind(t) == seq!["mention"@],
        t->0@ == "hashtag"@ ==> entity_kind(t) == seq!["hashtag"@],
{
    reveal_strlit("url");
    reveal_strlit("text_link");
    reveal_strlit("mention");
    reveal_strlit("text_mention");
    reveal_strlit("hashtag");
    assert(word_key("mention"@) != word_key("url"@));
    assert(word_key("mention"@) != word_key("text_link"@));
    assert(word_key("text_mention"@) != word_key("url"@));
    assert(word_key("text_mention"@) != word_key("text_link"@));
    assert(word_key("hashtag"@) != word_key("url"@));
    assert(word_key("hashtag"@) != word_key("text_link"@));
    assert(word_key("hashtag"@) != word_key("mention"@));
    assert(word_key("hashtag"@) != word_key("text_mention"@));
}

/// The entities of a message give its link, mention and hashtag types: an
/// entity of type "url" or "text_link" makes the message a link, one of
/// type "mention" or "text_mention" a mention, one of type "hashtag" a
/// hashtag, wherever the entity stands in the list.
pub proof fn law_entities_give_their_types(m: MessageFeatures, k: int)
    requires
        m.entity_types is Some,
        0 <= k < m.entity_types->0@.len(),
        m.entity_types->0@[k] is Some,
    ensures
        ({
            let t = m.entity_types->0@[k]->0@;
            &&& (t == "url"@ || t == "text_link"@) ==> content_types_spec(m).contains("link"@)
            &&& (t == "mention"@ || t == "text_mention"@) ==> content_types_spec(m).contains(
                "mention"@,
            )
            &&& t == "hashtag"@ ==> content_types_spec(m).contains("hashtag"@)
        }),
{
    let es = m.entity_types->0@;
    let kind = entity_kind(es[k]);
    let f = field_types_spec(m);
    let e = entity_types_spec(m);
    let a = type_if(m.has_sender_chat, "anon"@);
    lemma_entity_kind_of(es[k]);
    if kind.len() > 0 {
        let x = kind[0];
        assert(kind.contains(x));
        lemma_entity_kinds_has(es, k, x);
        let j = choose|j: int| 0 <= j < e.len() && e[j] == x;
        assert((f + e + a)[f.len() + j] == x);
        assert(content_types_spec(m).contains(x));
    }
}

/// The first index `i < n` at which `restricted` holds, if any.
pub open spec fn first_restricted_index(restricted: Seq<bool>, n: int) -> Option<int>
    decreases n,
{
    if n <= 0 {
        None
    } else {
        match first_restricted_index(restricted, n - 1) {
            Some(i) => Some(i),
            None => if restricted[n - 1] {
                Some(n - 1)
            } else {
                None
            },
        }
    }
}

/// `should_delete`: given the content types of a message and, for each,
/// whether the sender may not send it (`is_user_restricted`), the first
/// locked type, if any: the message is then deleted.
pub fn should_delete(types: &[&'static str], restricted: &[bool]) -> (r: Option<&'static str>)
    requires
        types@.len() == restricted@.len(),
    ensures
        match first_restricted_index(restricted@, restricted@.len() as int) {
            Some(i) => r == Some(types@[i]),
            None => r is None,
        },
{
    let mut i: usize = 0;
    while i < types.len()
        invariant
            i <= types@.len(),
            types@.len() == restricted@.len(),
            first_restricted_index(restricted@, i as int) is None,
        decreases types.len() - i,
    {
        if restricted[i] {
            assert(first_restricted_index(restricted@, i + 1) == Some(i as int));
            proof {
                lemma_first_restricted_stable(restricted@, i + 1, restricted@.len() as int);
            }
            return Some(types[i]);
        }
        i = i + 1;
    }
    None
}

/// A message is deleted exactly when one of its types is locked for the
/// sender, and the type named is the first locked one in check order.
pub proof fn law_first_locked_type(restricted: Seq<bool>, n: int)
    requires
        0 <= n <= restricted.len(),
    ensures
        match first_restricted_index(restricted, n) {
            Some(i) => 0 <= i < n && restricted[i] && forall|j: int| 0 <= j < i ==> !restricted[j],
            None => forall|j: int| 0 <= j < n ==> !restricted[j],
        },
    decreases n,
{
    if n > 0 {
        law_first_locked_type(restricted, n - 1);
    }
}

proof fn lemma_first_restricted_stable(restricted: Seq<bool>, n: int, m: int)
    requires
        n <= m,
        first_restricted_index(restricted, n) is Some,
    ensures
        first_restricted_index(restricted, m) == first_restricted_index(restricted, n),
    decreases m - n,
{
    if n < m {
        lemma_first_restricted_stable(restricted, n, m - 1);
    }
}

// ---------------------------------------------------------------------
// /ban in a group
// ---------------------------------------------------------------------

/// What `/ban` in a group does.
pub enum BanDecision {
    /// Nothing: the sender is not staff, or the reply target is missing or
    /// a bot.
    Ignore,
    /// A refusal, with its reply.
    Refuse(String),
    /// Ban the target.
    Ban,
}

/// Whether a rank is staff (may use `/ban`, `/unban`).
pub open spec fn is_staff_rank(r: Rank) -> bool {
    r == Rank::FirstOwner || r == Rank::Owner || r == Rank::Admin
}

/// `/ban` as a reply: staff only; owners cannot be banned; a VIP only by
/// an owner. `target` is the replied-to sender: (id, is a bot, rank), or
/// `None` without a reply.
pub open spec fn ban_decision_spec(sender: Rank, target: Option<(i64, bool, Rank)>) -> (int, Seq<char>) {
    if !is_staff_rank(sender) {
        (0, seq![])
    } else {
        match target {
            None => (0, seq![]),
            Some(t) => if t.0 == 0 || t.1 {
                (0, seq![])
            } else if is_owner_rank(t.2) {
                (1, "This user is an owner and cannot be banned."@)
            } else if t.2 == Rank::Vip && !is_owner_rank(sender) {
                (1, "Only owners can ban a VIP member."@)
            } else {
                (2, seq![])
            },
        }
    }
}

/// The decision of `/ban` in a group (see [`ban_decision_spec`]: 0 is
/// `Ignore`, 1 `Refuse` with the text, 2 `Ban`).
pub fn group_ban_decision(sender_rank: Rank, target: Option<(i64, bool, Rank)>) -> (r: BanDecision)
    ensures
        ({
            let e = ban_decision_spec(sender_rank, target);
            match r {
                BanDecision::Ignore => e.0 == 0,
                BanDecision::Refuse(m) => e.0 == 1 && m@ == e.1,
                BanDecision::Ban => e.0 == 2,
            }
        }),
{
    if !(sender_rank == Rank::FirstOwner || sender_rank == Rank::Owner || sender_rank
        == Rank::Admin) {
        return BanDecision::Ignore;
    }
    match target {
        None => BanDecision::Ignore,
        Some((id, is_bot, rank)) => {
            if id == 0 || is_bot {
                BanDecision::Ignore
            } else if rank == Rank::FirstOwner || rank == Rank::Owner {
                BanDecision::Refuse(owned("This user is an owner and cannot be banned."))
            } else if rank == Rank::Vip && !can_ban_vip(sender_rank) {
                BanDecision::Refuse(owned("Only owners can ban a VIP member."))
            } else {
                BanDecision::Ban
            }
        },
    }
}

/// A member whose rank is owner is never banned, and a VIP is banned only
/// on an owner's command.
pub proof fn law_ban_respects_ranks(sender: Rank, target: Option<(i64, bool, Rank)>)
    ensures
        ban_decision_spec(sender, target).0 == 2 ==> ({
            let t = target->0;
            &&& is_staff_rank(sender)
            &&& !is_owner_rank(t.2)
            &&& t.2 == Rank::Vip ==> is_owner_rank(sender)
        }),
{
}

} // verus!
