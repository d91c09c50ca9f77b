//! User settings and the rules that keep them well formed.
use vstd::prelude::*;

use crate::text::{is_blank, is_blank_str, str_eq};

verus! {

/// The hotkey that a blank or unusable hotkey setting falls back to.
pub const DEFAULT_SHORTCUT: &'static str = "CommandOrControl+Shift+Space";

/// Persisted user settings.
#[derive(Debug, Clone)]
pub struct Settings {
    pub model: String,
    pub languages: Vec<String>,
    pub hotkey: String,
    pub activation_mode: String,
    pub audio_cues: bool,
    pub auto_paste: bool,
    pub mute_during_recording: bool,
}

/// The mathematical model of `Settings`: every string by its characters.
#[verifier::ext_equal]
pub struct SettingsView {
    pub model: Seq<char>,
    pub languages: Seq<Seq<char>>,
    pub hotkey: Seq<char>,
    pub activation_mode: Seq<char>,
    pub audio_cues: bool,
    pub auto_paste: bool,
    pub mute_during_recording: bool,
}

/// The characters of each string of a list.
pub open spec fn strings_view(v: Seq<String>) -> Seq<Seq<char>> {
    Seq::new(v.len(), |i: int| v[i]@)
}

impl View for Settings {
    type V = SettingsView;

    open spec fn view(&self) -> SettingsView {
        SettingsView {
            model: self.model@,
            languages: strings_view(self.languages@),
            hotkey: self.hotkey@,
            activation_mode: self.activation_mode@,
            audio_cues: self.audio_cues,
            auto_paste: self.auto_paste,
            mute_during_recording: self.mute_during_recording,
        }
    }
}

/// The Whisper models the app knows how to download and run.
pub open spec fn is_known_model(m: Seq<char>) -> bool {
    m == "tiny"@ || m == "base"@ || m == "small"@
}

/// The two ways the hotkey can drive a recording.
pub open spec fn is_activation_mode(m: Seq<char>) -> bool {
    m == "hold"@ || m == "toggle"@
}

/// The language codes offered for transcription, in ascending string order.
pub open spec fn supported_languages() -> Seq<Seq<char>> {
    seq!["auto"@, "de"@, "en"@, "es"@, "fr"@, "it"@, "nl"@, "pl"@, "pt"@, "sv"@]
}

/// A language code that transcription accepts.
pub open spec fn is_supported(lang: Seq<char>) -> bool {
    ||| lang == "auto"@
    ||| lang == "de"@
    ||| lang == "en"@
    ||| lang == "fr"@
    ||| lang == "es"@
    ||| lang == "it"@
    ||| lang == "nl"@
    ||| lang == "pl"@
    ||| lang == "pt"@
    ||| lang == "sv"@
}

/// The codes of `codes`, in their order, that occur in `langs`.
pub open spec fn languages_present(codes: Seq<Seq<char>>, langs: Seq<Seq<char>>) -> Seq<
    Seq<char>,
>
    decreases codes.len(),
{
    if codes.len() == 0 {
        Seq::empty()
    } else {
        let rest = languages_present(codes.drop_last(), langs);
        if langs.contains(codes.last()) {
            rest.push(codes.last())
        } else {
            rest
        }
    }
}

/// The language list after normalization: the supported languages of `langs`,
/// sorted, each once.
pub open spec fn normalized_languages(langs: Seq<Seq<char>>) -> Seq<Seq<char>> {
    languages_present(supported_languages(), langs)
}

/// The settings after `Settings::normalize`.
pub open spec fn normalized(s: SettingsView) -> SettingsView {
    SettingsView {
        model: if is_known_model(s.model) {
            s.model
        } else {
            "tiny"@
        },
        languages: normalized_languages(s.languages),
        hotkey: if is_blank(s.hotkey) {
            DEFAULT_SHORTCUT@
        } else {
            s.hotkey
        },
        activation_mode: if is_activation_mode(s.activation_mode) {
            s.activation_mode
        } else {
            "hold"@
        },
        ..s
    }
}

/// The hotkey of a first start: the Option key on macOS, F8 elsewhere.
pub open spec fn default_hotkey(macos: bool) -> Seq<char> {
    if macos {
        "Option"@
    } else {
        "F8"@
    }
}

/// The settings a first start writes, on macOS or elsewhere.
pub open spec fn default_settings(macos: bool) -> SettingsView {
    SettingsView {
        model: "base"@,
        languages: seq!["de"@, "en"@],
        hotkey: default_hotkey(macos),
        activation_mode: "hold"@,
        audio_cues: true,
        auto_paste: true,
        mute_during_recording: false,
    }
}

/// Whether `lang` is a language code that transcription accepts.
pub fn is_supported_language(lang: &str) -> (r: bool)
    ensures
        r == is_supported(lang@),
{
    str_eq(lang, "auto") || str_eq(lang, "de") || str_eq(lang, "en") || str_eq(lang, "fr")
        || str_eq(lang, "es") || str_eq(lang, "it") || str_eq(lang, "nl") || str_eq(lang, "pl")
        || str_eq(lang, "pt") || str_eq(lang, "sv")
}

/// The `k`-th supported language code in ascending order.
fn supported_language_at(k: usize) -> (code: &'static str)
    requires
        k < 10,
    ensures
        code@ == supported_languages()[k as int],
{
    match k {
        0 => "auto",
        1 => "de",
        2 => "en",
        3 => "es",
        4 => "fr",
        5 => "it",
        6 => "nl",
        7 => "pl",
        8 => "pt",
        _ => "sv",
    }
}

/// Whether some element of `v` equals `s`.
pub fn contains_str(v: &Vec<String>, s: &str) -> (r: bool)
    ensures
        r == strings_view(v@).contains(s@),
{
    let mut i: usize = 0;
    while i < v.len()
        invariant
            i <= v.len(),
            forall|j: int| 0 <= j < i ==> v@[j]@ != s@,
        decreases v.len() - i,
    {
        if str_eq(v[i].as_str(), s) {
            assert(strings_view(v@)[i as int] == s@);
            return true;
        }
        i = i + 1;
    }
    proof {
        if strings_view(v@).contains(s@) {
            let j = choose|j: int| 0 <= j < strings_view(v@).len() && strings_view(v@)[j] == s@;
            assert(v@[j]@ == s@);
        }
    }
    false
}

/// The supported languages of `langs`, in ascending order, each once.
pub fn normalize_languages(langs: &Vec<String>) -> (out: Vec<String>)
    ensures
        strings_view(out@) == normalized_languages(strings_view(langs@)),
{
    let ghost given = strings_view(langs@);
    let mut out: Vec<String> = Vec::new();
    let mut k: usize = 0;
    assert(supported_languages().take(0) =~= Seq::<Seq<char>>::empty());
    assert(strings_view(out@) =~= Seq::<Seq<char>>::empty());
    while k < 10
        invariant
            k <= 10,
            given == strings_view(langs@),
            strings_view(out@) == languages_present(supported_languages().take(k as int), given),
        decreases 10 - k,
    {
        let code = supported_language_at(k);
        let ghost before = strings_view(out@);
        proof {
            let next = supported_languages().take(k + 1);
            assert(next.drop_last() =~= supported_languages().take(k as int));
            assert(next.last() == supported_languages()[k as int]);
        }
        if contains_str(langs, code) {
            out.push(code.to_string());
            assert(strings_view(out@) =~= before.push(code@));
        }
        k = k + 1;
    }
    assert(supported_languages().take(10) =~= supported_languages());
    out
}

impl Settings {
    /// Repairs settings read from disk: an unknown model becomes "tiny", the
    /// languages are cut to the supported ones, sorted and deduplicated, an
    /// unknown activation mode becomes "hold", and a blank hotkey becomes the
    /// default shortcut.
    pub fn normalize(&mut self)
        ensures
            final(self)@ == normalized(old(self)@),
    {
        let model_ok = str_eq(self.model.as_str(), "tiny") || str_eq(self.model.as_str(), "base")
            || str_eq(self.model.as_str(), "small");
        if !model_ok {
            self.model = "tiny".to_string();
        }
        self.languages = normalize_languages(&self.languages);
        let mode_ok = str_eq(self.activation_mode.as_str(), "hold") || str_eq(
            self.activation_mode.as_str(),
            "toggle",
        );
        if !mode_ok {
            self.activation_mode = "hold".to_string();
        }
        if is_blank_str(self.hotkey.as_str()) {
            self.hotkey = DEFAULT_SHORTCUT.to_string();
        }
    }
}


/// The language transcription is told to expect: the only configured
/// language, or automatic detection when several or none are configured.
pub fn transcription_language(languages: &Vec<String>) -> (lang: String)
    ensures
        languages@.len() == 1 ==> lang@ == languages@[0]@,
        languages@.len() != 1 ==> lang@ == "auto"@,
{
    if languages.len() == 1 {
        languages[0].clone()
    } else {
        "auto".to_string()
    }
}

impl Settings {
    /// The settings to use at start, given those read from disk (`None` when
    /// there is no settings file yet): stored settings are normalized, and
    /// without a file the defaults are used and must be written (`true`).
    pub fn from_stored(stored: Option<Settings>, macos: bool) -> (r: (Settings, bool))
        ensures
            match stored {
                Some(s) => r.0@ == normalized(s@) && !r.1,
                None => r.0@ == default_settings(macos) && r.1,
            },
    {
        match stored {
            Some(s) => {
                let mut s = s;
                s.normalize();
                (s, false)
            },
            None => (Settings::default_for(macos), true),
        }
    }

    /// The settings of a first start, on macOS (`macos`) or elsewhere.
    pub fn default_for(macos: bool) -> (s: Self)
        ensures
            s@ == default_settings(macos),
    {
        let s = Settings {
            model: "base".to_string(),
            languages: vec!["de".to_string(), "en".to_string()],
            hotkey: if macos {
                "Option".to_string()
            } else {
                "F8".to_string()
            },
            activation_mode: "hold".to_string(),
            audio_cues: true,
            auto_paste: true,
            mute_during_recording: false,
        };
        assert(s@.languages =~= seq!["de"@, "en"@]);
        s
    }
}

/// Strict lexicographic order of strings by code point, the order `Ord`
/// gives `String`.
pub open spec fn str_lt(a: Seq<char>, b: Seq<char>) -> bool
    decreases a.len(),
{
    if a.len() == 0 {
        b.len() > 0
    } else if b.len() == 0 {
        false
    } else if a[0] != b[0] {
        (a[0] as u32) < (b[0] as u32)
    } else {
        str_lt(a.drop_first(), b.drop_first())
    }
}

/// Every element is smaller than every later one: sorted, without duplicates.
pub open spec fn strictly_ascending(s: Seq<Seq<char>>) -> bool {
    forall|i: int, j: int| 0 <= i < j < s.len() ==> str_lt(#[trigger] s[i], #[trigger] s[j])
}

/// What `Settings::normalize` guarantees of its result.
pub open spec fn well_formed(s: SettingsView) -> bool {
    &&& is_known_model(s.model)
    &&& is_activation_mode(s.activation_mode)
    &&& !is_blank(s.hotkey)
    &&& strictly_ascending(s.languages)
    &&& forall|i: int| 0 <= i < s.languages.len() ==> is_supported(#[trigger] s.languages[i])
}

proof fn lemma_str_lt_transitive(a: Seq<char>, b: Seq<char>, c: Seq<char>)
    requires
        str_lt(a, b),
        str_lt(b, c),
    ensures
        str_lt(a, c),
    decreases a.len(),
{
    if a.len() > 0 && b.len() > 0 && c.len() > 0 && a[0] == b[0] && b[0] == c[0] {
        lemma_str_lt_transitive(a.drop_first(), b.drop_first(), c.drop_first());
    }
}

proof fn lemma_supported_languages_ascending()
    ensures
        strictly_ascending(supported_languages()),
{
    reveal_strlit("auto");
    reveal_strlit("de");
    reveal_strlit("en");
    reveal_strlit("es");
    reveal_strlit("fr");
    reveal_strlit("it");
    reveal_strlit("nl");
    reveal_strlit("pl");
    reveal_strlit("pt");
    reveal_strlit("sv");
    let s = supported_languages();
    assert forall|i: int| 0 <= i < s.len() - 1 implies str_lt(#[trigger] s[i], s[i + 1]) by {
        assert(str_lt(s[0], s[1]));
        assert(str_lt(s[1], s[2]));
        assert(str_lt(s[2].drop_first(), s[3].drop_first()));
        assert(str_lt(s[2], s[3]));
        assert(str_lt(s[3], s[4]));
        assert(str_lt(s[4], s[5]));
        assert(str_lt(s[5], s[6]));
        assert(str_lt(s[6], s[7]));
        assert(str_lt(s[7].drop_first(), s[8].drop_first()));
        assert(str_lt(s[7], s[8]));
        assert(str_lt(s[8], s[9]));
    }
    lemma_consecutive_ascending(s);
}

proof fn lemma_consecutive_ascending(s: Seq<Seq<char>>)
    requires
        forall|i: int| 0 <= i < s.len() - 1 ==> str_lt(#[trigger] s[i], s[i + 1]),
    ensures
        strictly_ascending(s),
{
    assert forall|i: int, j: int| 0 <= i < j < s.len() implies str_lt(
        #[trigger] s[i],
        #[trigger] s[j],
    ) by {
        lemma_ascending_gap(s, i, j);
    }
}

proof fn lemma_ascending_gap(s: Seq<Seq<char>>, i: int, j: int)
    requires
        forall|k: int| 0 <= k < s.len() - 1 ==> str_lt(#[trigger] s[k], s[k + 1]),
        0 <= i < j < s.len(),
    ensures
        str_lt(s[i], s[j]),
    decreases j - i,
{
    if j > i + 1 {
        lemma_ascending_gap(s, i, j - 1);
        assert(str_lt(s[j - 1], s[j]));
        lemma_str_lt_transitive(s[i], s[j - 1], s[j]);
    }
}

/// A code is kept exactly when it is among the candidate codes and given.
proof fn lemma_languages_present_contains(
    codes: Seq<Seq<char>>,
    langs: Seq<Seq<char>>,
    c: Seq<char>,
)
    ensures
        languages_present(codes, langs).contains(c) <==> (codes.contains(c) && langs.contains(
            c,
        )),
    decreases codes.len(),
{
    if codes.len() > 0 {
        let rest = codes.drop_last();
        lemma_languages_present_contains(rest, langs, c);
        assert(codes =~= rest.push(codes.last()));
        if codes.contains(c) && c != codes.last() {
            let k = choose|k: int| 0 <= k < codes.len() && codes[k] == c;
            assert(rest[k] == c);
        }
        if rest.contains(c) {
            let k = choose|k: int| 0 <= k < rest.len() && rest[k] == c;
            assert(codes[k] == c);
        }
        let out = languages_present(rest, langs);
        if langs.contains(codes.last()) {
            assert(out.push(codes.last()).last() == codes.last());
            if out.contains(c) {
                let k = choose|k: int| 0 <= k < out.len() && out[k] == c;
                assert(out.push(codes.last())[k] == c);
            }
            if out.push(codes.last()).contains(c) && c != codes.last() {
                let k = choose|k: int|
                    0 <= k < out.push(codes.last()).len() && out.push(codes.last())[k] == c;
                assert(out[k] == c);
            }
        }
    }
}

/// Which codes are kept depends only on which candidates are given.
proof fn lemma_languages_present_same_members(
    codes: Seq<Seq<char>>,
    l1: Seq<Seq<char>>,
    l2: Seq<Seq<char>>,
)
    requires
        forall|c: Seq<char>| codes.contains(c) ==> (l1.contains(c) == l2.contains(c)),
    ensures
        languages_present(codes, l1) == languages_present(codes, l2),
    decreases codes.len(),
{
    if codes.len() > 0 {
        let rest = codes.drop_last();
        assert forall|c: Seq<char>| rest.contains(c) implies (l1.contains(c) == l2.contains(
            c,
        )) by {
            let k = choose|k: int| 0 <= k < rest.len() && rest[k] == c;
            assert(codes[k] == c);
        }
        lemma_languages_present_same_members(rest, l1, l2);
        assert(codes.contains(codes.last())) by {
            assert(codes[codes.len() - 1] == codes.last());
        }
    }
}

/// The kept codes keep the order of the candidates.
proof fn lemma_languages_present_ascending(codes: Seq<Seq<char>>, langs: Seq<Seq<char>>)
    requires
        strictly_ascending(codes),
    ensures
        strictly_ascending(languages_present(codes, langs)),
    decreases codes.len(),
{
    if codes.len() > 0 {
        let rest = codes.drop_last();
        assert(strictly_ascending(rest)) by {
            assert forall|i: int, j: int| 0 <= i < j < rest.len() implies str_lt(
                #[trigger] rest[i],
                #[trigger] rest[j],
            ) by {
                assert(rest[i] == codes[i] && rest[j] == codes[j]);
            }
        }
        lemma_languages_present_ascending(rest, langs);
        let out = languages_present(rest, langs);
        if langs.contains(codes.last()) {
            let full = out.push(codes.last());
            assert forall|i: int, j: int| 0 <= i < j < full.len() implies str_lt(
                #[trigger] full[i],
                #[trigger] full[j],
            ) by {
                if j == full.len() - 1 {
                    lemma_languages_present_contains(rest, langs, out[i]);
                    assert(out.contains(out[i]));
                    let k = choose|k: int| 0 <= k < rest.len() && rest[k] == out[i];
                    assert(codes[k] == out[i]);
                    assert(codes[codes.len() - 1] == codes.last());
                } else {
                    assert(full[i] == out[i] && full[j] == out[j]);
                }
            }
        }
    }
}

/// Every kept code is a candidate code.
proof fn lemma_languages_present_from_codes(
    codes: Seq<Seq<char>>,
    langs: Seq<Seq<char>>,
    i: int,
)
    requires
        0 <= i < languages_present(codes, langs).len(),
    ensures
        codes.contains(languages_present(codes, langs)[i]),
{
    let out = languages_present(codes, langs);
    assert(out.contains(out[i]));
    lemma_languages_present_contains(codes, langs, out[i]);
}

proof fn lemma_present_step(codes: Seq<Seq<char>>, langs: Seq<Seq<char>>, k: int)
    requires
        0 <= k < codes.len(),
    ensures
        languages_present(codes.take(k + 1), langs) == (if langs.contains(codes[k]) {
            languages_present(codes.take(k), langs).push(codes[k])
        } else {
            languages_present(codes.take(k), langs)
        }),
{
    assert(codes.take(k + 1).drop_last() =~= codes.take(k));
    assert(codes.take(k + 1).last() == codes[k]);
}

proof fn lemma_default_shortcut_not_blank()
    ensures
        !is_blank(DEFAULT_SHORTCUT@),
{
    reveal_strlit("CommandOrControl+Shift+Space");
    let s = DEFAULT_SHORTCUT@;
    assert(!crate::text::is_white_space(s[0]));
    assert(crate::text::trim_start_spec(s) == s);
    assert(!crate::text::is_white_space(s.last()));
    assert(crate::text::trim_end_spec(s) == s);
}

/// Normalizing twice changes nothing more than normalizing once.
pub proof fn lemma_normalize_idempotent(s: SettingsView)
    ensures
        normalized(normalized(s)) == normalized(s),
{
    lemma_default_shortcut_not_blank();
    let sl = supported_languages();
    let once = normalized_languages(s.languages);
    assert forall|c: Seq<char>| sl.contains(c) implies (once.contains(c) == s.languages.contains(
        c,
    )) by {
        lemma_languages_present_contains(sl, s.languages, c);
    }
    lemma_languages_present_same_members(sl, once, s.languages);
    assert(normalized(normalized(s)) =~= normalized(s));
}

/// Normalized settings name a known model and activation mode, a non-blank
/// hotkey, and supported languages in ascending order without repeats.
pub proof fn lemma_normalized_well_formed(s: SettingsView)
    ensures
        well_formed(normalized(s)),
{
    lemma_default_shortcut_not_blank();
    lemma_supported_languages_ascending();
    lemma_languages_present_ascending(supported_languages(), s.languages);
    let out = normalized_languages(s.languages);
    assert forall|i: int| 0 <= i < out.len() implies is_supported(#[trigger] out[i]) by {
        lemma_languages_present_from_codes(supported_languages(), s.languages, i);
        let sl = supported_languages();
        let k = choose|k: int| 0 <= k < sl.len() && sl[k] == out[i];
        assert(is_supported(sl[k]));
    }
}

/// The normalized language list holds exactly the supported languages given.
pub proof fn lemma_normalized_languages_members(langs: Seq<Seq<char>>, c: Seq<char>)
    ensures
        normalized_languages(langs).contains(c) <==> (is_supported(c) && langs.contains(c)),
{
    lemma_languages_present_contains(supported_languages(), langs, c);
    let sl = supported_languages();
    if is_supported(c) {
        if c == "auto"@ { assert(sl[0] == c); }
        else if c == "de"@ { assert(sl[1] == c); }
        else if c == "en"@ { assert(sl[2] == c); }
        else if c == "es"@ { assert(sl[3] == c); }
        else if c == "fr"@ { assert(sl[4] == c); }
        else if c == "it"@ { assert(sl[5] == c); }
        else if c == "nl"@ { assert(sl[6] == c); }
        else if c == "pl"@ { assert(sl[7] == c); }
        else if c == "pt"@ { assert(sl[8] == c); }
        else { assert(sl[9] == c); }
    }
    if sl.contains(c) {
        let k = choose|k: int| 0 <= k < sl.len() && sl[k] == c;
        assert(is_supported(sl[k]));
    }
}

/// The default settings are already normal.
pub proof fn lemma_default_is_normal(macos: bool)
    ensures
        normalized(default_settings(macos)) == default_settings(macos),
{
    reveal_strlit("Option");
    reveal_strlit("F8");
    let h = default_hotkey(macos);
    assert(!crate::text::is_white_space(h[0]));
    assert(crate::text::trim_start_spec(h) == h);
    assert(!crate::text::is_white_space(h.last()));
    assert(crate::text::trim_end_spec(h) == h);
    let d = default_settings(macos).languages;
    let sl = supported_languages();
    assert forall|c: Seq<char>| sl.contains(c) implies (d.contains(c) == normalized_languages(
        d,
    ).contains(c)) by {
        lemma_languages_present_contains(sl, d, c);
    }
    reveal_strlit("auto");
    reveal_strlit("de");
    reveal_strlit("en");
    reveal_strlit("es");
    reveal_strlit("fr");
    reveal_strlit("it");
    reveal_strlit("nl");
    reveal_strlit("pl");
    reveal_strlit("pt");
    reveal_strlit("sv");
    assert(d.contains("de"@)) by {
        assert(d[0] == "de"@);
    }
    assert(d.contains("en"@)) by {
        assert(d[1] == "en"@);
    }
    assert forall|k: int| 0 <= k < 10 && k != 1 && k != 2 implies !d.contains(#[trigger] sl[k]) by {
        if d.contains(sl[k]) {
            let j = choose|j: int| 0 <= j < d.len() && d[j] == sl[k];
            assert(d[j][0] == sl[k][0] || d[j].len() != sl[k].len());
            assert(d[j][1] == sl[k][1] || d[j].len() != sl[k].len());
        }
    }
    assert(sl.take(0) =~= Seq::<Seq<char>>::empty());
    lemma_present_step(sl, d, 0);
    lemma_present_step(sl, d, 1);
    assert(languages_present(sl.take(2), d) =~= seq!["de"@]);
    lemma_present_step(sl, d, 2);
    assert(languages_present(sl.take(3), d) =~= seq!["de"@, "en"@]);
    lemma_present_step(sl, d, 3);
    lemma_present_step(sl, d, 4);
    lemma_present_step(sl, d, 5);
    lemma_present_step(sl, d, 6);
    lemma_present_step(sl, d, 7);
    lemma_present_step(sl, d, 8);
    lemma_present_step(sl, d, 9);
    assert(sl.take(10) =~= sl);
    assert(normalized_languages(d) =~= d);
    assert(normalized(default_settings(macos)) =~= default_settings(macos));
}

} // verus!
