use vstd::prelude::*;

verus! {

/// The whole station configuration, as read from the configuration file.
#[derive(Debug, Clone)]
pub struct SpotifmConfig {
    pub user: Option<String>,
    pub pass: Option<String>,
    pub session_cache: Option<String>,
    pub uris: Vec<String>,
    pub announce: SpotifmAnnounceConfig,
    pub elevenlabs: SpotifmElevenLabsCfg,
}

/// How the station logs in to Spotify.
#[derive(Debug, Clone, PartialEq, Eq)]
pub enum SpotifyLoginConfig {
    Password { user: String, pass: String },
    SessionCache { path: String },
}

/// An error raised while reading or validating the station configuration.
#[derive(Debug, Clone, PartialEq, Eq)]
pub struct SpotifmConfigError {
    message: String,
}

/// Spoken announcements: one before each song, and periodic station bumpers.
#[derive(Debug, Clone)]
pub struct SpotifmAnnounceConfig {
    pub song: SpotifmSongConfig,
    pub bumper: SpotifmBumperConfig,
}

/// The announcement spoken before each song.
#[derive(Debug, Clone)]
pub struct SpotifmSongConfig {
    pub enable: bool,
    pub espeak: SpotifmEspeakCfg,
}

/// Station bumpers: a list of tags spoken in turn, every `freq` songs.
///
/// `idx` is the rotation position: the index of the tag that the next bumper
/// speaks.
#[derive(Debug, Clone)]
pub struct SpotifmBumperConfig {
    pub idx: Option<usize>,
    pub enable: bool,
    pub tags: Vec<String>,
    pub freq: usize,
    pub espeak: SpotifmEspeakCfg,
}

/// Credentials for the ElevenLabs text-to-speech service.
#[derive(Debug, Clone)]
pub struct SpotifmElevenLabsCfg {
    pub key: String,
    pub voice: String,
}

/// Voice settings for the espeak speech synthesizer.
#[derive(Debug, Clone)]
pub struct SpotifmEspeakCfg {
    pub speed: u32,
    pub amplitude: u32,
    pub pitch: u32,
    pub gap: u32,
    pub voice: String,
}

// ---------------------------------------------------------------------------
// Errors
// ---------------------------------------------------------------------------

/// The message given when neither login mode is configured.
pub open spec fn missing_login_text() -> Seq<char> {
    "spotify login config requires either user/pass or session_cache"@
}

/// The prefix of the message given when the configuration text cannot be read.
pub open spec fn unparseable_prefix() -> Seq<char> {
    "unable to parse config file: "@
}

impl View for SpotifmConfigError {
    type V = Seq<char>;

    /// The error's message text.
    closed spec fn view(&self) -> Seq<char> {
        self.message@
    }
}

impl SpotifmConfigError {
    /// Builds an error carrying `message`.
    pub fn new(message: String) -> (e: Self)
        ensures
            e@ == message@,
    {
        SpotifmConfigError { message }
    }

    /// The error for configuration text that could not be read as a
    /// configuration; `detail` says why.
    pub fn unparseable(detail: &str) -> (e: Self)
        ensures
            e@ == unparseable_prefix() + detail@,
    {
        let mut message = String::from_str("unable to parse config file: ");
        message.append(detail);
        SpotifmConfigError { message }
    }

    /// The error's message, as text.
    pub fn message(&self) -> (text: String)
        ensures
            text@ == self@,
    {
        self.message.clone()
    }
}

// ---------------------------------------------------------------------------
// Login mode
// ---------------------------------------------------------------------------

/// `s` is present and holds at least one character.
pub open spec fn is_filled(s: Option<String>) -> bool {
    match s {
        Some(v) => v@.len() > 0,
        None => false,
    }
}

impl SpotifmConfig {
    /// The login mode that the configuration selects, if any: a user and a
    /// password, both non-empty, win over a non-empty session cache path.
    pub open spec fn login_mode(self) -> Option<SpotifyLoginConfig> {
        if is_filled(self.user) && is_filled(self.pass) {
            Some(SpotifyLoginConfig::Password { user: self.user->0, pass: self.pass->0 })
        } else if is_filled(self.session_cache) {
            Some(SpotifyLoginConfig::SessionCache { path: self.session_cache->0 })
        } else {
            None
        }
    }

    /// Selects how the station logs in to Spotify.
    pub fn spotify_login_config(&self) -> (r: Result<SpotifyLoginConfig, SpotifmConfigError>)
        ensures
            (self.user matches Some(u) && self.pass matches Some(p) && u@.len() > 0 && p@.len()
                > 0) ==> r == Ok::<SpotifyLoginConfig, SpotifmConfigError>(
                SpotifyLoginConfig::Password { user: self.user->0, pass: self.pass->0 },
            ),
            !(self.user matches Some(u) && self.pass matches Some(p) && u@.len() > 0 && p@.len()
                > 0) && (self.session_cache matches Some(c) && c@.len() > 0)
                ==> r == Ok::<SpotifyLoginConfig, SpotifmConfigError>(
                SpotifyLoginConfig::SessionCache { path: self.session_cache->0 },
            ),
            !(self.user matches Some(u) && self.pass matches Some(p) && u@.len() > 0 && p@.len()
                > 0) && !(self.session_cache matches Some(c) && c@.len() > 0) ==> (r matches Err(
                e) && e@ == missing_login_text()),
            match r {
                Ok(mode) => self.login_mode() == Some(mode),
                Err(e) => self.login_mode() is None && e@ == missing_login_text(),
            },
    {
        match (&self.user, &self.pass, &self.session_cache) {
            (Some(user), Some(pass), _) if !user.as_str().is_empty() && !pass.as_str().is_empty() => {
                Ok(SpotifyLoginConfig::Password { user: user.clone(), pass: pass.clone() })
            },
            (_, _, Some(path)) if !path.as_str().is_empty() => {
                Ok(SpotifyLoginConfig::SessionCache { path: path.clone() })
            },
            _ => Err(
                SpotifmConfigError::new(
                    String::from_str(
                        "spotify login config requires either user/pass or session_cache",
                    ),
                ),
            ),
        }
    }
}

/// A non-empty user and password select password login, whatever the session
/// cache holds (absent, empty or filled).
pub proof fn lemma_password_login_wins(config: SpotifmConfig)
    requires
        config.user matches Some(u) && u@.len() > 0,
        config.pass matches Some(p) && p@.len() > 0,
    ensures
        config.login_mode() == Some(
            SpotifyLoginConfig::Password { user: config.user->0, pass: config.pass->0 },
        ),
{
}

/// Without a usable user and password, a non-empty session cache path selects
/// session cache login; with neither, no mode is selected.
pub proof fn lemma_session_cache_login(config: SpotifmConfig)
    requires
        !(config.user matches Some(u) && config.pass matches Some(p) && u@.len() > 0 && p@.len()
            > 0),
    ensures
        (config.session_cache matches Some(c) && c@.len() > 0) ==> config.login_mode() == Some(
            SpotifyLoginConfig::SessionCache { path: config.session_cache->0 },
        ),
        !(config.session_cache matches Some(c) && c@.len() > 0) ==> config.login_mode() is None,
{
}

// ---------------------------------------------------------------------------
// Bumper rotation
// ---------------------------------------------------------------------------

/// The rotation position that follows position `i` among `len` tags.
pub open spec fn next_position(i: int, len: int) -> int {
    (i + 1) % len
}

/// The rotation position reached from position `i` among `len` tags after
/// `n` bumpers.
pub open spec fn position_after(i: int, len: int, n: nat) -> int
    decreases n,
{
    if n == 0 {
        i
    } else {
        next_position(position_after(i, len, (n - 1) as nat), len)
    }
}

/// The settings of two bumper configurations agree, the rotation position
/// aside.
pub open spec fn same_bumper_settings(a: SpotifmBumperConfig, b: SpotifmBumperConfig) -> bool {
    &&& a.enable == b.enable
    &&& a.tags == b.tags
    &&& a.freq == b.freq
    &&& a.espeak == b.espeak
}

impl SpotifmBumperConfig {
    /// The rotation position exists and is a valid index, or is the start of
    /// a rotation that has no tags yet.
    pub open spec fn rotation_well_formed(self) -> bool {
        match self.idx {
            Some(i) => i == 0 || i < self.tags.len(),
            None => false,
        }
    }

    /// `next` can be called: the position indexes a tag.
    pub open spec fn has_current_tag(self) -> bool {
        match self.idx {
            Some(i) => i < self.tags.len(),
            None => false,
        }
    }

    /// Returns the tag that is due and moves the rotation on to the next tag,
    /// wrapping round after the last one.
    pub fn next(&mut self) -> (tag: String)
        requires
            old(self).has_current_tag(),
        ensures
            tag == old(self).tags[old(self).idx->0 as int],
            final(self).idx == Some(
                next_position(old(self).idx->0 as int, old(self).tags.len() as int) as usize,
            ),
            same_bumper_settings(*final(self), *old(self)),
            final(self).rotation_well_formed(),
    {
        let i = self.idx.unwrap();
        let tag = self.tags[i].clone();
        self.idx = Some((i + 1) % self.tags.len());
        tag
    }

    /// Removes every tag and restarts the rotation.
    pub fn clear_tags(&mut self)
        ensures
            final(self).idx == Some(0usize),
            final(self).tags@ == Seq::<String>::empty(),
            final(self).enable == old(self).enable,
            final(self).freq == old(self).freq,
            final(self).espeak == old(self).espeak,
            final(self).rotation_well_formed(),
    {
        self.idx = Some(0);
        self.tags = Vec::new();
    }

    /// Appends a tag at the end of the rotation.
    pub fn add_tag(&mut self, tag: String)
        ensures
            final(self).tags@ == old(self).tags@.push(tag),
            final(self).idx == old(self).idx,
            final(self).enable == old(self).enable,
            final(self).freq == old(self).freq,
            final(self).espeak == old(self).espeak,
            old(self).rotation_well_formed() ==> final(self).rotation_well_formed(),
    {
        self.tags.push(tag);
    }

    /// Replaces the tags and restarts the rotation.
    pub fn update_tags(&mut self, tags: Vec<String>)
        ensures
            final(self).idx == Some(0usize),
            final(self).tags == tags,
            final(self).enable == old(self).enable,
            final(self).freq == old(self).freq,
            final(self).espeak == old(self).espeak,
            final(self).rotation_well_formed(),
    {
        self.idx = Some(0);
        self.tags = tags;
    }
}

/// Bumpers go round the tags in order: from position `i`, after `n` bumpers
/// the rotation stands at `(i + n) % len`.
pub proof fn lemma_rotation_round_robin(i: int, len: int, n: nat)
    requires
        0 <= i < len,
    ensures
        position_after(i, len, n) == (i + n) % len,
    decreases n,
{
    if n == 0 {
        vstd::arithmetic::div_mod::lemma_small_mod(i as nat, len as nat);
    } else {
        lemma_rotation_round_robin(i, len, (n - 1) as nat);
        vstd::arithmetic::div_mod::lemma_add_mod_noop_right(1, i + n - 1, len);
    }
}

/// After as many bumpers as there are tags, the rotation is back where it
/// started: every tag was spoken once.
pub proof fn lemma_rotation_period(i: int, len: int)
    requires
        0 <= i < len,
    ensures
        position_after(i, len, len as nat) == i,
{
    lemma_rotation_round_robin(i, len, len as nat);
    vstd::arithmetic::div_mod::lemma_mod_add_multiples_vanish(i, len);
    vstd::arithmetic::div_mod::lemma_small_mod(i as nat, len as nat);
    assert(i + len == len + i);
}

/// Every position the rotation reaches from a due tag again indexes a tag, so
/// `next` can be called again and again.
pub proof fn lemma_rotation_stays_in_range(i: int, len: int, n: nat)
    requires
        0 <= i < len,
    ensures
        0 <= position_after(i, len, n) < len,
{
    lemma_rotation_round_robin(i, len, n);
    vstd::arithmetic::div_mod::lemma_mod_bound(i + n, len);
}

/// A well-formed rotation that holds at least one tag has a tag due, so
/// `next` can be called on it.
pub proof fn lemma_filled_rotation_has_current_tag(b: SpotifmBumperConfig)
    requires
        b.rotation_well_formed(),
        b.tags.len() > 0,
    ensures
        b.has_current_tag(),
{
}

// ---------------------------------------------------------------------------
// Reading a configuration
// ---------------------------------------------------------------------------

impl SpotifmConfig {
    /// Completes the reading of a configuration whose fields were decoded from
    /// the configuration file: the bumper rotation starts at the first tag, and
    /// the configuration must select a login mode.
    pub fn from_decoded(decoded: SpotifmConfig) -> (r: Result<SpotifmConfig, SpotifmConfigError>)
        ensures
            match r {
                Ok(config) => {
                    &&& decoded.login_mode() is Some
                    &&& config.announce.bumper.idx == Some(0usize)
                    &&& config.announce.bumper.rotation_well_formed()
                    &&& config.login_mode() == decoded.login_mode()
                    &&& same_bumper_settings(config.announce.bumper, decoded.announce.bumper)
                    &&& config.announce.song == decoded.announce.song
                    &&& config.user == decoded.user
                    &&& config.pass == decoded.pass
                    &&& config.session_cache == decoded.session_cache
                    &&& config.uris == decoded.uris
                    &&& config.elevenlabs == decoded.elevenlabs
                },
                Err(e) => decoded.login_mode() is None && e@ == missing_login_text(),
            },
            (decoded.user matches Some(u) && decoded.pass matches Some(p) && u@.len() > 0
                && p@.len() > 0) ==> r is Ok,
            (decoded.session_cache matches Some(c) && c@.len() > 0) ==> r is Ok,
    {
        let mut config = decoded;
        config.announce.bumper.idx = Some(0);
        match config.spotify_login_config() {
            Ok(_) => Ok(config),
            Err(e) => Err(e),
        }
    }
}

} // verus!
