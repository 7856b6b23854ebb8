//! Reaction-gif commands: who a reaction is for, what it says, and a cache that keeps a
//! guild from seeing the same gif twice in a row.
use vstd::prelude::*;
use vstd::string::*;
use rand::{Rng, SeedableRng};
use crate::text::{append, same_text};

verus! {

/// Who a reaction is for.
#[derive(Debug)]
pub enum Recipient {
    /// Another user, by name.
    SomeoneElse(String),
    /// The author.
    Yourself,
    /// Everyone in the channel.
    Everyone,
}

/// A reaction that has a recipient.
#[derive(Clone, Copy, Debug, PartialEq, Eq, Structural)]
pub enum Reaction {
    Hug,
    Pat,
    Slap,
    Kiss,
}

/// A reaction of the author alone.
#[derive(Clone, Copy, Debug, PartialEq, Eq, Structural)]
pub enum SoloReaction {
    Disgust,
    Cry,
    Cringe,
}

/// A gif found by the gif search: the page it stands on, and the gif itself.
#[derive(Debug)]
pub struct GifResult {
    pub url: String,
    pub gif_url: String,
}

/// An ASCII letter in lower case; any other character as it is.
pub open spec fn ascii_lower(c: char) -> char {
    if 'A' <= c && c <= 'Z' {
        ((c as u32) + 32) as char
    } else {
        c
    }
}

/// Whether two texts are equal up to the case of ASCII letters.
pub open spec fn eq_ignoring_ascii_case(a: Seq<char>, b: Seq<char>) -> bool {
    a.len() == b.len() && forall|i: int| 0 <= i < a.len() ==> ascii_lower(#[trigger] a[i]) == ascii_lower(b[i])
}

fn lower_char(c: char) -> (r: char)
    ensures
        r == ascii_lower(c),
{
    if 'A' <= c && c <= 'Z' {
        ((c as u32 + 32) as u8) as char
    } else {
        c
    }
}

/// Whether two texts are equal up to the case of ASCII letters.
pub fn eq_ignore_ascii_case(a: &str, b: &str) -> (r: bool)
    ensures
        r == eq_ignoring_ascii_case(a@, b@),
{
    let n = a.unicode_len();
    if n != b.unicode_len() {
        return false;
    }
    let mut i: usize = 0;
    while i < n
        invariant
            n == a@.len(),
            n == b@.len(),
            i <= n,
            forall|k: int| 0 <= k < i ==> ascii_lower(#[trigger] a@[k]) == ascii_lower(b@[k]),
        decreases n - i,
    {
        if lower_char(a.get_char(i)) != lower_char(b.get_char(i)) {
            return false;
        }
        i += 1;
    }
    true
}

/// Reads a prefix command's argument: `everyone` in any case, else its first mention (the
/// author, or someone else by name); `None` where neither is given.
pub fn extract_recipient(argument: &str, first_mention: Option<(u64, String)>, author: u64) -> (r:
    Option<Recipient>)
    ensures
        eq_ignoring_ascii_case(argument@, "everyone"@) ==> r matches Some(Recipient::Everyone),
        !eq_ignoring_ascii_case(argument@, "everyone"@) ==> match first_mention {
            None => r.is_none(),
            Some((id, name)) => if id == author {
                r matches Some(Recipient::Yourself)
            } else {
                (r matches Some(Recipient::SomeoneElse(n)) && n == name)
            },
        },
{
    if eq_ignore_ascii_case(argument, "everyone") {
        Some(Recipient::Everyone)
    } else {
        match first_mention {
            Some((id, name)) => if id == author {
                Some(Recipient::Yourself)
            } else {
                Some(Recipient::SomeoneElse(name))
            },
            None => None,
        }
    }
}

/// What a reaction for everyone says.
pub open spec fn everyone_text(kind: Reaction) -> Seq<char> {
    match kind {
        Reaction::Hug => "Group hug!"@,
        Reaction::Pat => "Pats for everyone!"@,
        Reaction::Slap => "You slapped everyone! Ouch... that's gotta hurt."@,
        Reaction::Kiss => "A friendly kiss to everyone!"@,
    }
}

/// What a reaction for the author says.
pub open spec fn yourself_text(kind: Reaction) -> Seq<char> {
    match kind {
        Reaction::Hug => "You hugged yourself. Cute 🙂"@,
        Reaction::Pat => "You gave yourself a pat on the back!"@,
        Reaction::Slap => "You slapped yourself? Not sure if that's a good or bad thing..."@,
        Reaction::Kiss => "Well... You just kissed yourself"@,
    }
}

/// The verb between the author's and the recipient's names.
pub open spec fn verb_text(kind: Reaction) -> Seq<char> {
    match kind {
        Reaction::Hug => " hugs "@,
        Reaction::Pat => " pats "@,
        Reaction::Slap => " slaps "@,
        Reaction::Kiss => " kisses "@,
    }
}

/// What a reaction says.
pub open spec fn reaction_text(kind: Reaction, author: Seq<char>, recipient: Recipient) -> Seq<char> {
    match recipient {
        Recipient::Everyone => everyone_text(kind),
        Recipient::Yourself => yourself_text(kind),
        Recipient::SomeoneElse(name) => author + verb_text(kind) + name@,
    }
}

/// What a reaction by `author` for `recipient` says.
pub fn reaction_message(kind: Reaction, author: &str, recipient: Recipient) -> (r: String)
    ensures
        r@ == reaction_text(kind, author@, recipient),
{
    match recipient {
        Recipient::Everyone => match kind {
            Reaction::Hug => "Group hug!".to_owned(),
            Reaction::Pat => "Pats for everyone!".to_owned(),
            Reaction::Slap => "You slapped everyone! Ouch... that's gotta hurt.".to_owned(),
            Reaction::Kiss => "A friendly kiss to everyone!".to_owned(),
        },
        Recipient::Yourself => match kind {
            Reaction::Hug => "You hugged yourself. Cute 🙂".to_owned(),
            Reaction::Pat => "You gave yourself a pat on the back!".to_owned(),
            Reaction::Slap => "You slapped yourself? Not sure if that's a good or bad thing...".to_owned(),
            Reaction::Kiss => "Well... You just kissed yourself".to_owned(),
        },
        Recipient::SomeoneElse(name) => {
            let mut s = author.to_owned();
            match kind {
                Reaction::Hug => append(&mut s, " hugs "),
                Reaction::Pat => append(&mut s, " pats "),
                Reaction::Slap => append(&mut s, " slaps "),
                Reaction::Kiss => append(&mut s, " kisses "),
            }
            append(&mut s, name.as_str());
            s
        },
    }
}

/// The cache key and the search text of a reaction.
pub fn reaction_search(kind: Reaction) -> (r: (&'static str, &'static str))
    ensures
        kind == Reaction::Hug ==> r == ("hug", "anime hug"),
        kind == Reaction::Pat ==> r == ("pat", "anime pat"),
        kind == Reaction::Slap ==> r == ("slap", "anime slap"),
        kind == Reaction::Kiss ==> r == ("kiss", "anime kiss"),
{
    match kind {
        Reaction::Hug => ("hug", "anime hug"),
        Reaction::Pat => ("pat", "anime pat"),
        Reaction::Slap => ("slap", "anime slap"),
        Reaction::Kiss => ("kiss", "anime kiss"),
    }
}

/// The recipient of a slash command, which names a member: the author, or someone else
/// by name.
pub fn member_recipient(member: u64, member_name: String, author: u64) -> (r: Recipient)
    ensures
        member == author ==> r matches Recipient::Yourself,
        member != author ==> (r matches Recipient::SomeoneElse(n) && n == member_name),
{
    if member == author {
        Recipient::Yourself
    } else {
        Recipient::SomeoneElse(member_name)
    }
}

/// What a solo reaction says after the author's name.
pub open spec fn solo_text(kind: SoloReaction) -> Seq<char> {
    match kind {
        SoloReaction::Disgust => " is disgusted 😕"@,
        SoloReaction::Cry => " is crying! 😭"@,
        SoloReaction::Cringe => " thinks that's really cringey 😬"@,
    }
}

/// What a solo reaction by `author` says.
pub fn solo_message(kind: SoloReaction, author: &str) -> (r: String)
    ensures
        r@ == author@ + solo_text(kind),
{
    let mut s = author.to_owned();
    match kind {
        SoloReaction::Disgust => append(&mut s, " is disgusted 😕"),
        SoloReaction::Cry => append(&mut s, " is crying! 😭"),
        SoloReaction::Cringe => append(&mut s, " thinks that's really cringey 😬"),
    }
    s
}

/// The cache key, the search text and the content filter of a solo reaction.
pub fn solo_search(kind: SoloReaction) -> (r: (&'static str, &'static str, &'static str))
    ensures
        kind == SoloReaction::Disgust ==> r == ("disgust", "anime disgust", "medium"),
        kind == SoloReaction::Cry ==> r == ("cry", "anime cry", "medium"),
        kind == SoloReaction::Cringe ==> r == ("cringe", "cringe", "low"),
{
    match kind {
        SoloReaction::Disgust => ("disgust", "anime disgust", "medium"),
        SoloReaction::Cry => ("cry", "anime cry", "medium"),
        SoloReaction::Cringe => ("cringe", "cringe", "low"),
    }
}

/// The content filter of a free gif search: off in a channel marked NSFW.
pub fn search_filter(nsfw_channel: bool) -> (r: &'static str)
    ensures
        nsfw_channel ==> r == "off",
        !nsfw_channel ==> r == "medium",
{
    if nsfw_channel {
        "off"
    } else {
        "medium"
    }
}

/// Relies on rand's `StdRng::from_entropy` and `Rng::gen_range`: a number in `0..n`, which
/// panics only on an empty range.
#[verifier::external_body]
pub(crate) fn random_below(n: usize) -> (r: usize)
    requires
        n > 0,
    ensures
        r < n,
{
    rand::rngs::StdRng::from_entropy().gen_range(0..n)
}

/// Picks one of `gifs` at random; `None` where there is none.
pub fn pick_gif(gifs: &Vec<GifResult>) -> (r: Option<usize>)
    ensures
        gifs@.len() == 0 ==> r.is_none(),
        gifs@.len() > 0 ==> (r matches Some(i) && i < gifs@.len()),
{
    if gifs.len() == 0 {
        None
    } else {
        Some(random_below(gifs.len()))
    }
}

/// The image that a guild was last shown for a cache key.
pub struct CachedImage {
    pub guild: u64,
    pub key: String,
    pub url: String,
}

/// The index of the first entry for `guild` and `key`, if any.
pub open spec fn find_entry(entries: Seq<CachedImage>, guild: u64, key: Seq<char>) -> Option<int>
    decreases entries.len(),
{
    if entries.len() == 0 {
        None
    } else if entries.last().guild == guild && entries.last().key@ == key && find_entry(
        entries.drop_last(),
        guild,
        key,
    ).is_none() {
        Some(entries.len() - 1)
    } else {
        find_entry(entries.drop_last(), guild, key)
    }
}

/// The gif last shown in each guild for each cache key.
pub struct ReactionImageCache {
    entries: Vec<CachedImage>,
}

impl ReactionImageCache {
    /// The url cached for `guild` and `key`.
    pub closed spec fn cached_url(&self, guild: u64, key: Seq<char>) -> Option<Seq<char>> {
        match find_entry(self.entries@, guild, key) {
            Some(i) => Some(self.entries@[i].url@),
            None => None,
        }
    }

    /// An empty cache.
    pub fn new() -> (r: ReactionImageCache)
        ensures
            forall|g: u64, k: Seq<char>| r.cached_url(g, k).is_none(),
    {
        ReactionImageCache { entries: Vec::new() }
    }

    fn find(&self, guild: u64, key: &str) -> (r: Option<usize>)
        ensures
            r matches Some(i) ==> find_entry(self.entries@, guild, key@) == Some(i as int) && i
                < self.entries@.len() && self.entries@[i as int].guild == guild
                && self.entries@[i as int].key@ == key@,
            r.is_none() ==> find_entry(self.entries@, guild, key@).is_none(),
    {
        let mut i: usize = 0;
        assert(self.entries@.subrange(0, 0) =~= Seq::<CachedImage>::empty());
        while i < self.entries.len()
            invariant
                i <= self.entries@.len(),
                find_entry(self.entries@.subrange(0, i as int), guild, key@).is_none(),
            decreases self.entries@.len() - i,
        {
            let e = &self.entries[i];
            let hit = e.guild == guild && same_text(e.key.as_str(), key);
            proof {
                let p = self.entries@.subrange(0, i + 1);
                assert(p.drop_last() =~= self.entries@.subrange(0, i as int));
                lemma_find_prefix(self.entries@, guild, key@, i + 1);
            }
            if hit {
                proof {
                    lemma_find_extend(self.entries@, guild, key@, i + 1);
                }
                return Some(i);
            }
            i += 1;
        }
        assert(self.entries@.subrange(0, i as int) =~= self.entries@);
        None
    }

    /// The url cached for `guild` and `key`, if any.
    pub fn get(&self, guild: u64, key: &str) -> (r: Option<String>)
        ensures
            r.is_none() == self.cached_url(guild, key@).is_none(),
            r matches Some(u) ==> self.cached_url(guild, key@) == Some(u@),
    {
        match self.find(guild, key) {
            Some(i) => Some(self.entries[i].url.clone()),
            None => None,
        }
    }

    /// Records that `guild` was last shown `url` for `key`.
    pub fn add_to_cache(&mut self, guild: u64, key: String, url: String)
        ensures
            final(self).cached_url(guild, key@) == Some(url@),
            forall|g: u64, k: Seq<char>|
                !(g == guild && k == key@) ==> #[trigger] final(self).cached_url(g, k) == old(
                    self,
                ).cached_url(g, k),
    {
        match self.find(guild, key.as_str()) {
            Some(i) => {
                let ghost before = self.entries@;
                let ghost k = key@;
                self.entries.set(i, CachedImage { guild, key, url });
                proof {
                    assert forall|g: u64, k2: Seq<char>|
                        !(g == guild && k2 == k) implies #[trigger] self.cached_url(g, k2)
                            == old(self).cached_url(g, k2) by {
                        lemma_find_update(before, i as int, self.entries@[i as int], g, k2);
                        lemma_find_hit(before, g, k2);
                    }
                    lemma_find_update(before, i as int, self.entries@[i as int], guild, k);
                }
            },
            None => {
                let ghost before = self.entries@;
                let ghost k = key@;
                self.entries.push(CachedImage { guild, key, url });
                proof {
                    assert(self.entries@.drop_last() =~= before);
                    assert forall|g: u64, k2: Seq<char>|
                        !(g == guild && k2 == k) implies #[trigger] self.cached_url(g, k2)
                            == old(self).cached_url(g, k2) by {
                        lemma_find_hit(before, g, k2);
                    }
                }
            },
        }
    }

    /// `gifs` without the first one that `guild` was last shown for `key`.
    pub fn check_image_cache(&self, guild: u64, key: &str, gifs: Vec<GifResult>) -> (r: Vec<
        GifResult,
    >)
        ensures
            without_url(gifs@, self.cached_url(guild, key@), r@),
    {
        let cached = self.get(guild, key);
        match cached {
            None => gifs,
            Some(u) => {
                let ghost given = gifs@;
                let mut kept = gifs;
                let mut i: usize = 0;
                while i < kept.len()
                    invariant
                        kept@ == given,
                        given == gifs@,
                        self.cached_url(guild, key@) == Some(u@),
                        i <= kept@.len(),
                        forall|k: int| 0 <= k < i ==> kept@[k].url@ != u@,
                    decreases kept@.len() - i,
                {
                    if same_text(kept[i].url.as_str(), u.as_str()) {
                        let ghost before = kept@;
                        kept.remove(i);
                        assert(before[i as int].url@ == u@);
                        assert(exists|j: int| 0 <= j < before.len() && before[j].url@ == u@);
                        return kept;
                    }
                    i += 1;
                }
                kept
            },
        }
    }
}

/// `after` is `before` without its first gif whose page is `url` (unchanged where there
/// is no such gif, or no url).
pub open spec fn without_url(before: Seq<GifResult>, url: Option<Seq<char>>, after: Seq<GifResult>) -> bool {
    match url {
        None => after == before,
        Some(u) => if exists|i: int| 0 <= i < before.len() && before[i].url@ == u {
            exists|i: int|
                0 <= i < before.len() && before[i].url@ == u && (forall|k: int|
                    0 <= k < i ==> before[k].url@ != u) && after == before.remove(i)
        } else {
            after == before
        },
    }
}

/// Looking in a prefix one longer finds its last entry only where the shorter prefix
/// has none.
proof fn lemma_find_prefix(s: Seq<CachedImage>, guild: u64, key: Seq<char>, n: int)
    requires
        0 < n <= s.len(),
    ensures
        s.subrange(0, n).drop_last() == s.subrange(0, n - 1),
{
    assert(s.subrange(0, n).drop_last() =~= s.subrange(0, n - 1));
}

/// A key found in a prefix is found at the same place in the whole.
proof fn lemma_find_extend(s: Seq<CachedImage>, guild: u64, key: Seq<char>, n: int)
    requires
        0 <= n <= s.len(),
        find_entry(s.subrange(0, n), guild, key).is_some(),
    ensures
        find_entry(s, guild, key) == find_entry(s.subrange(0, n), guild, key),
    decreases s.len() - n,
{
    if n == s.len() {
        assert(s.subrange(0, n) =~= s);
    } else {
        assert(s.drop_last().subrange(0, n) =~= s.subrange(0, n));
        lemma_find_extend(s.drop_last(), guild, key, n);
    }
}

/// An entry that a lookup finds is one for the key looked up.
proof fn lemma_find_hit(s: Seq<CachedImage>, guild: u64, key: Seq<char>)
    ensures
        find_entry(s, guild, key) matches Some(j) ==> 0 <= j < s.len() && s[j].guild == guild
            && s[j].key@ == key,
    decreases s.len(),
{
    if s.len() > 0 {
        lemma_find_hit(s.drop_last(), guild, key);
    }
}

/// Overwriting the first entry for a key with another for the same key leaves every
/// lookup where it was.
proof fn lemma_find_update(s: Seq<CachedImage>, i: int, e: CachedImage, guild: u64, key: Seq<char>)
    requires
        0 <= i < s.len(),
        e.guild == s[i].guild,
        e.key@ == s[i].key@,
    ensures
        find_entry(s.update(i, e), guild, key) == find_entry(s, guild, key),
    decreases s.len(),
{
    if s.len() > 0 {
        let t = s.update(i, e);
        if i == s.len() - 1 {
            assert(t.drop_last() =~= s.drop_last());
        } else {
            assert(t.drop_last() =~= s.drop_last().update(i, e));
            lemma_find_update(s.drop_last(), i, e, guild, key);
        }
    }
}

} // verus!
