use vstd::prelude::*;
use crate::config::{SpotifmBumperConfig, SpotifmSongConfig};

verus! {

/// A request to change the bumper settings; absent fields are left as they are.
#[derive(Debug, Clone)]
pub struct AnnounceBumper {
    pub enable: Option<bool>,
    pub tag: Option<String>,
    pub freq: Option<usize>,
    pub speed: Option<u32>,
    pub amplitude: Option<u32>,
    pub voice: Option<String>,
    pub pitch: Option<u32>,
    pub gap: Option<u32>,
}

/// A request to change the song announcement settings; absent fields are
/// left as they are.
#[derive(Debug, Clone)]
pub struct AnnounceSong {
    pub enable: Option<bool>,
    pub speed: Option<u32>,
    pub amplitude: Option<u32>,
    pub voice: Option<String>,
    pub pitch: Option<u32>,
    pub gap: Option<u32>,
}

/// The value a setting takes when a request may replace it: the requested
/// value if there is one, else the current one.
pub open spec fn overridden<T>(current: T, requested: Option<T>) -> T {
    match requested {
        Some(v) => v,
        None => current,
    }
}

/// The song announcement settings after `form` is applied to `song`.
pub open spec fn song_after(song: SpotifmSongConfig, form: AnnounceSong) -> SpotifmSongConfig {
    SpotifmSongConfig {
        enable: overridden(song.enable, form.enable),
        espeak: crate::config::SpotifmEspeakCfg {
            speed: overridden(song.espeak.speed, form.speed),
            amplitude: overridden(song.espeak.amplitude, form.amplitude),
            pitch: overridden(song.espeak.pitch, form.pitch),
            gap: overridden(song.espeak.gap, form.gap),
            voice: overridden(song.espeak.voice, form.voice),
        },
    }
}

/// Applies a song announcement request: each field present in `form`
/// replaces the matching setting.
pub fn edit_announce_song(song: &mut SpotifmSongConfig, form: &AnnounceSong)
    ensures
        *final(song) == song_after(*old(song), *form),
        form.enable matches Some(v) ==> final(song).enable == v,
        form.enable is None ==> final(song).enable == old(song).enable,
        form.speed matches Some(v) ==> final(song).espeak.speed == v,
        form.speed is None ==> final(song).espeak.speed == old(song).espeak.speed,
        form.amplitude matches Some(v) ==> final(song).espeak.amplitude == v,
        form.amplitude is None ==> final(song).espeak.amplitude == old(song).espeak.amplitude,
        form.voice matches Some(v) ==> final(song).espeak.voice == v,
        form.voice is None ==> final(song).espeak.voice == old(song).espeak.voice,
        form.pitch matches Some(v) ==> final(song).espeak.pitch == v,
        form.pitch is None ==> final(song).espeak.pitch == old(song).espeak.pitch,
        form.gap matches Some(v) ==> final(song).espeak.gap == v,
        form.gap is None ==> final(song).espeak.gap == old(song).espeak.gap,
{
    if let Some(enable) = form.enable {
        song.enable = enable;
    }
    if let Some(speed) = form.speed {
        song.espeak.speed = speed;
    }
    if let Some(amplitude) = form.amplitude {
        song.espeak.amplitude = amplitude;
    }
    if let Some(voice) = &form.voice {
        song.espeak.voice = voice.clone();
    }
    if let Some(pitch) = form.pitch {
        song.espeak.pitch = pitch;
    }
    if let Some(gap) = form.gap {
        song.espeak.gap = gap;
    }
}

/// A requested value replaces the current one; without one the current value
/// stays.
pub proof fn lemma_overridden<T>(current: T, value: T)
    ensures
        overridden(current, Some(value)) == value,
        overridden(current, None::<T>) == current,
{
}

/// Each field of a song request replaces exactly its own setting, and a
/// missing field leaves its setting as it was.
pub proof fn lemma_song_edit_fields(song: SpotifmSongConfig, form: AnnounceSong)
    ensures
        song_after(song, form).enable == (match form.enable {
            Some(v) => v,
            None => song.enable,
        }),
        song_after(song, form).espeak.speed == (match form.speed {
            Some(v) => v,
            None => song.espeak.speed,
        }),
        song_after(song, form).espeak.amplitude == (match form.amplitude {
            Some(v) => v,
            None => song.espeak.amplitude,
        }),
        song_after(song, form).espeak.voice == (match form.voice {
            Some(v) => v,
            None => song.espeak.voice,
        }),
        song_after(song, form).espeak.pitch == (match form.pitch {
            Some(v) => v,
            None => song.espeak.pitch,
        }),
        song_after(song, form).espeak.gap == (match form.gap {
            Some(v) => v,
            None => song.espeak.gap,
        }),
{
}

/// Applying the same song announcement request twice has the effect of
/// applying it once.
pub proof fn lemma_song_edit_idempotent(song: SpotifmSongConfig, form: AnnounceSong)
    ensures
        song_after(song_after(song, form), form) == song_after(song, form),
{
}

/// A song announcement request with no field leaves the settings unchanged.
pub proof fn lemma_empty_song_edit(song: SpotifmSongConfig, form: AnnounceSong)
    requires
        form.enable is None,
        form.speed is None,
        form.amplitude is None,
        form.voice is None,
        form.pitch is None,
        form.gap is None,
    ensures
        song_after(song, form) == song,
{
}

/// The tags after a bumper request: its tag, if any, goes to the end.
pub open spec fn tags_after(tags: Seq<String>, requested: Option<String>) -> Seq<String> {
    match requested {
        Some(t) => tags.push(t),
        None => tags,
    }
}

/// A bumper request's tag always goes to the end of the rotation, whether or
/// not the rotation holds tags already; without a tag the rotation is kept.
pub proof fn lemma_bumper_tag_appended(tags: Seq<String>, tag: String)
    ensures
        tags_after(tags, Some(tag)) == tags.push(tag),
        tags_after(tags, Some(tag)).len() == tags.len() + 1,
        tags_after(tags, Some(tag)).last() == tag,
        tags_after(tags, Some(tag)).subrange(0, tags.len() as int) == tags,
        tags_after(tags, None) == tags,
{
    assert(tags.push(tag).subrange(0, tags.len() as int) =~= tags);
}

/// Applies a bumper request: each setting present in `form` replaces the
/// matching one, and its tag, if any, is appended to the rotation. The
/// rotation position is kept.
pub fn edit_announce_bumper(bumper: &mut SpotifmBumperConfig, form: &AnnounceBumper)
    ensures
        final(bumper).enable == overridden(old(bumper).enable, form.enable),
        final(bumper).tags@ == tags_after(old(bumper).tags@, form.tag),
        final(bumper).freq == overridden(old(bumper).freq, form.freq),
        final(bumper).espeak.speed == overridden(old(bumper).espeak.speed, form.speed),
        final(bumper).espeak.amplitude == overridden(old(bumper).espeak.amplitude, form.amplitude),
        final(bumper).espeak.voice == overridden(old(bumper).espeak.voice, form.voice),
        final(bumper).espeak.pitch == overridden(old(bumper).espeak.pitch, form.pitch),
        final(bumper).espeak.gap == overridden(old(bumper).espeak.gap, form.gap),
        final(bumper).idx == old(bumper).idx,
        form.enable matches Some(v) ==> final(bumper).enable == v,
        form.enable is None ==> final(bumper).enable == old(bumper).enable,
        form.freq matches Some(v) ==> final(bumper).freq == v,
        form.freq is None ==> final(bumper).freq == old(bumper).freq,
        form.speed matches Some(v) ==> final(bumper).espeak.speed == v,
        form.speed is None ==> final(bumper).espeak.speed == old(bumper).espeak.speed,
        form.amplitude matches Some(v) ==> final(bumper).espeak.amplitude == v,
        form.amplitude is None ==> final(bumper).espeak.amplitude == old(bumper).espeak.amplitude,
        form.voice matches Some(v) ==> final(bumper).espeak.voice == v,
        form.voice is None ==> final(bumper).espeak.voice == old(bumper).espeak.voice,
        form.pitch matches Some(v) ==> final(bumper).espeak.pitch == v,
        form.pitch is None ==> final(bumper).espeak.pitch == old(bumper).espeak.pitch,
        form.gap matches Some(v) ==> final(bumper).espeak.gap == v,
        form.gap is None ==> final(bumper).espeak.gap == old(bumper).espeak.gap,
        form.tag matches Some(t) ==> final(bumper).tags@ == old(bumper).tags@.push(t),
        form.tag matches Some(t) ==> final(bumper).tags.len() == old(bumper).tags.len() + 1,
        form.tag is None ==> final(bumper).tags@ == old(bumper).tags@,
        old(bumper).rotation_well_formed() ==> final(bumper).rotation_well_formed(),
{
    if let Some(enable) = form.enable {
        bumper.enable = enable;
    }
    if let Some(tag) = &form.tag {
        bumper.add_tag(tag.clone());
    }
    if let Some(freq) = form.freq {
        bumper.freq = freq;
    }
    if let Some(speed) = form.speed {
        bumper.espeak.speed = speed;
    }
    if let Some(amplitude) = form.amplitude {
        bumper.espeak.amplitude = amplitude;
    }
    if let Some(voice) = &form.voice {
        bumper.espeak.voice = voice.clone();
    }
    if let Some(pitch) = form.pitch {
        bumper.espeak.pitch = pitch;
    }
    if let Some(gap) = form.gap {
        bumper.espeak.gap = gap;
    }
}

// ---------------------------------------------------------------------------
// Text helpers
// ---------------------------------------------------------------------------

/// Whether two texts are the same.
pub fn same_text(a: &str, b: &str) -> (r: bool)
    ensures
        r == (a@ == b@),
{
    String::from_str(a) == String::from_str(b)
}

/// What `str::to_lowercase` gives for a text: each character replaced by its
/// Unicode lowercase mapping.
pub uninterp spec fn lowercase(s: Seq<char>) -> Seq<char>;

/// Calls `str::to_lowercase`. The contract claims only that the result is
/// the one that `lowercase` names for the argument.
#[verifier::external_body]
fn to_lowercase(s: &str) -> (r: String)
    ensures
        r@ == lowercase(s@),
{
    s.to_lowercase()
}

/// The character of the decimal digit `d` (below ten).
pub open spec fn digit_char(d: nat) -> char {
    (('0' as nat) + d) as char
}

/// The decimal numeral of `n`, without leading zeros.
pub open spec fn decimal_digits(n: nat) -> Seq<char>
    decreases n,
{
    if n < 10 {
        seq![digit_char(n)]
    } else {
        decimal_digits(n / 10).push(digit_char(n % 10))
    }
}

/// Calls `ToString::to_string` on a `u32`, whose `Display` writes the number
/// in decimal with no sign, padding or leading zeros; that is what the
/// contract claims.
#[verifier::external_body]
fn decimal_text(n: u32) -> (r: String)
    ensures
        r@ == decimal_digits(n as nat),
{
    n.to_string()
}

// ---------------------------------------------------------------------------
// Announcement settings lookup
// ---------------------------------------------------------------------------

/// A section of the announcement settings.
#[derive(Debug, Clone, Copy, PartialEq, Eq)]
pub enum AnnounceSection {
    Bumper,
    Song,
}

/// The section of the announcement settings that a request path names:
/// `bumper` or `song`; any other name names none.
pub fn announce_section(kind: &str) -> (r: Option<AnnounceSection>)
    ensures
        r == (if kind@ == "bumper"@ {
            Some(AnnounceSection::Bumper)
        } else if kind@ == "song"@ {
            Some(AnnounceSection::Song)
        } else {
            None
        }),
{
    if same_text(kind, "bumper") {
        Some(AnnounceSection::Bumper)
    } else if same_text(kind, "song") {
        Some(AnnounceSection::Song)
    } else {
        None
    }
}

// ---------------------------------------------------------------------------
// Queueing and playing a track
// ---------------------------------------------------------------------------

/// Where a requested track already stands, if anywhere.
#[derive(Debug, Clone, Copy, PartialEq, Eq)]
pub enum QueueTarget {
    /// The requested track is the one playing now.
    NowPlaying,
    /// The requested track is the one that plays next.
    NextUp,
    /// The requested track must be looked up and queued.
    Fetch,
}

/// Decides what a request to queue or play the track `requested` needs: the
/// playing track and the next one are answered as they are.
pub fn queue_target(now_playing: &str, next_up: &str, requested: &str) -> (t: QueueTarget)
    ensures
        t == (if now_playing@ == requested@ {
            QueueTarget::NowPlaying
        } else if next_up@ == requested@ {
            QueueTarget::NextUp
        } else {
            QueueTarget::Fetch
        }),
{
    if same_text(now_playing, requested) {
        QueueTarget::NowPlaying
    } else if same_text(next_up, requested) {
        QueueTarget::NextUp
    } else {
        QueueTarget::Fetch
    }
}

// ---------------------------------------------------------------------------
// Spotify Web API
// ---------------------------------------------------------------------------

/// The part of the Web API's search address before the query.
pub open spec fn search_base() -> Seq<char> {
    "https://api.spotify.com/v1/search?q="@
}

/// The Web API address that searches for `query` among items of type `kind`,
/// returning at most `limit` of them.
pub open spec fn search_address(query: Seq<char>, kind: Seq<char>, limit: nat) -> Seq<char> {
    search_base() + query + "&type="@ + lowercase(kind) + "&limit="@ + decimal_digits(limit)
}

/// The search address is the fixed base followed by the whole query,
/// unchanged, and then the type and the limit.
pub proof fn lemma_search_address_holds_query(query: Seq<char>, kind: Seq<char>, limit: nat)
    ensures
        search_address(query, kind, limit) == "https://api.spotify.com/v1/search?q="@ + query
            + "&type="@ + lowercase(kind) + "&limit="@ + decimal_digits(limit),
        search_address(query, kind, limit).subrange(0, search_base().len() as int)
            == search_base(),
        search_address(query, kind, limit).subrange(
            search_base().len() as int,
            (search_base().len() + query.len()) as int,
        ) == query,
{
    let a = search_address(query, kind, limit);
    let b = search_base();
    let rest = "&type="@ + lowercase(kind) + "&limit="@ + decimal_digits(limit);
    assert(a =~= b + query + rest);
    assert(a.subrange(0, b.len() as int) =~= b);
    assert(a.subrange(b.len() as int, (b.len() + query.len()) as int) =~= query);
}

/// Builds the Web API search address; the item type is written in lowercase.
pub fn search_url(query: &str, kind: &str, limit: u32) -> (url: String)
    ensures
        url@ == search_address(query@, kind@, limit as nat),
        url@ == "https://api.spotify.com/v1/search?q="@ + query@ + "&type="@ + lowercase(kind@)
            + "&limit="@ + decimal_digits(limit as nat),
{
    let kind_lower = to_lowercase(kind);
    let limit_text = decimal_text(limit);
    let mut url = String::from_str("https://api.spotify.com/v1/search?q=");
    url.append(query);
    url.append("&type=");
    url.append(kind_lower.as_str());
    url.append("&limit=");
    url.append(limit_text.as_str());
    url
}

/// The fields of a Web API track object that the station reads, each present
/// when the object holds it as text (the artists: when it holds an array; an
/// artist's name: when the artist holds it as text).
#[derive(Debug, Clone)]
pub struct TrackDocument {
    pub id: Option<String>,
    pub name: Option<String>,
    pub artists: Option<Vec<Option<String>>>,
}

/// The names that are present, in order.
pub open spec fn present_names(items: Seq<Option<String>>) -> Seq<String>
    decreases items.len(),
{
    if items.len() == 0 {
        Seq::empty()
    } else {
        let rest = present_names(items.drop_last());
        match items.last() {
            Some(name) => rest.push(name),
            None => rest,
        }
    }
}

/// The number of artists that have a name.
pub open spec fn count_present(items: Seq<Option<String>>) -> nat
    decreases items.len(),
{
    if items.len() == 0 {
        0
    } else {
        count_present(items.drop_last()) + if items.last() is Some {
            1nat
        } else {
            0nat
        }
    }
}

/// A named artist adds its name at the end; an unnamed one adds nothing.
pub proof fn lemma_present_names_step(items: Seq<Option<String>>, name: String)
    ensures
        present_names(items.push(Some(name))) == present_names(items).push(name),
        present_names(items.push(None)) == present_names(items),
{
    assert(items.push(Some(name)).drop_last() =~= items);
    assert(items.push(None).drop_last() =~= items);
}

/// There is exactly one name per artist that has one.
pub proof fn lemma_present_names_count(items: Seq<Option<String>>)
    ensures
        present_names(items).len() == count_present(items),
        present_names(items).len() <= items.len(),
    decreases items.len(),
{
    if items.len() > 0 {
        lemma_present_names_count(items.drop_last());
    }
}

/// When every artist has a name, the names are all of them, in order.
pub proof fn lemma_present_names_all_named(items: Seq<Option<String>>)
    requires
        forall|i: int| 0 <= i < items.len() ==> (#[trigger] items[i]) is Some,
    ensures
        present_names(items).len() == items.len(),
        forall|i: int| 0 <= i < items.len() ==> present_names(items)[i] == items[i]->0,
    decreases items.len(),
{
    if items.len() > 0 {
        let init = items.drop_last();
        assert forall|i: int| 0 <= i < init.len() implies (#[trigger] init[i]) is Some by {
            assert(init[i] == items[i]);
        }
        lemma_present_names_all_named(init);
        assert forall|i: int| 0 <= i < items.len() implies present_names(items)[i]
            == items[i]->0 by {
            if i < init.len() {
                assert(init[i] == items[i]);
            }
        }
    }
}

/// The names of the artists, in order, skipping those without a name.
fn artist_names(items: &Vec<Option<String>>) -> (names: Vec<String>)
    ensures
        names@ == present_names(items@),
        names@.len() == count_present(items@),
        (forall|i: int| 0 <= i < items@.len() ==> (#[trigger] items@[i]) is Some) ==> {
            &&& names@.len() == items@.len()
            &&& forall|i: int| 0 <= i < items@.len() ==> names@[i] == items@[i]->0
        },
{
    let mut names: Vec<String> = Vec::new();
    let mut i: usize = 0;
    while i < items.len()
        invariant
            i <= items.len(),
            names@ == present_names(items@.take(i as int)),
        decreases items.len() - i,
    {
        assert(items@.take(i as int) == items@.take((i + 1) as int).drop_last());
        match &items[i] {
            Some(name) => names.push(name.clone()),
            None => {},
        }
        i = i + 1;
    }
    assert(items@.take(items.len() as int) == items@);
    proof {
        lemma_present_names_count(items@);
        if forall|i: int| 0 <= i < items@.len() ==> (#[trigger] items@[i]) is Some {
            lemma_present_names_all_named(items@);
        }
    }
    names
}

/// The identifier, name and artists of the track `track_id` from its Web API
/// object: a missing identifier falls back to `track_id`, a missing name to
/// the empty text, missing artists to none.
pub fn track_fields(doc: &TrackDocument, track_id: &str) -> (r: (String, String, Vec<String>))
    ensures
        r.0@ == (match doc.id {
            Some(id) => id@,
            None => track_id@,
        }),
        r.1@ == (match doc.name {
            Some(name) => name@,
            None => Seq::<char>::empty(),
        }),
        r.2@ == (match doc.artists {
            Some(items) => present_names(items@),
            None => Seq::<String>::empty(),
        }),
{
    let id = match &doc.id {
        Some(id) => id.clone(),
        None => String::from_str(track_id),
    };
    let name = match &doc.name {
        Some(name) => name.clone(),
        None => String::new(),
    };
    let artists = match &doc.artists {
        Some(items) => artist_names(items),
        None => Vec::new(),
    };
    (id, name, artists)
}

} // verus!
