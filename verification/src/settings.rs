//! What the settings program writes when it saves: the settings of a
//! schema and of smart suggestions as key/value pairs, the patch file they
//! leave behind, the schema to select, and the message after deploying.

use vstd::prelude::*;
use vstd::string::StrSliceExecFns;

use crate::text::{owned, concat, i32_text, int_text, bool_str, bool_text};
use crate::schema_config::SchemaConfig;
use crate::schema_info::SchemaInfo;
use crate::rime_config::{set_in_patch, RimeConfigManager, SchemaConfigManager, opt_str_view};

verus! {

/// A setting's value.
pub enum SettingValue {
    Int(i32),
    Bool(bool),
    Text(String),
}

/// One setting to write: its '/'-separated key and its value.
pub struct Setting {
    pub key: String,
    pub value: SettingValue,
}

/// A setting's key, the kind of its value (0 integer, 1 boolean, 2 text)
/// and the text it is written as.
pub type SettingView = (Seq<char>, int, Seq<char>);

/// The view of a setting.
pub open spec fn setting_view(s: Setting) -> SettingView {
    match s.value {
        SettingValue::Int(v) => (s.key@, 0, int_text(v as int)),
        SettingValue::Bool(b) => (s.key@, 1, bool_text(b)),
        SettingValue::Text(t) => (s.key@, 2, t@),
    }
}

/// The views of a list of settings.
pub open spec fn setting_views(s: Seq<Setting>) -> Seq<SettingView> {
    s.map_values(|x: Setting| setting_view(x))
}

/// An integer setting when the value is given.
pub open spec fn opt_int(key: Seq<char>, v: Option<i32>) -> Seq<SettingView> {
    match v {
        Some(x) => seq![(key, 0int, int_text(x as int))],
        None => Seq::empty(),
    }
}

/// A boolean setting when the value is given.
pub open spec fn opt_bool(key: Seq<char>, v: Option<bool>) -> Seq<SettingView> {
    match v {
        Some(x) => seq![(key, 1int, bool_text(x))],
        None => Seq::empty(),
    }
}

/// A text setting when the value is given.
pub open spec fn opt_text(key: Seq<char>, v: Option<String>) -> Seq<SettingView> {
    match v {
        Some(x) => seq![(key, 2int, x@)],
        None => Seq::empty(),
    }
}

/// The settings of a schema that are written on saving, in order: each one
/// that is set (an empty "auto clear" is left out).
pub open spec fn schema_settings(c: SchemaConfig) -> Seq<SettingView> {
    opt_int("speller/max_code_length"@, c.speller.max_code_length) + opt_bool(
        "speller/auto_select"@,
        c.speller.auto_select,
    ) + (match c.speller.auto_clear {
        Some(v) if v@.len() > 0 => seq![("speller/auto_clear"@, 2int, v@)],
        _ => Seq::empty(),
    }) + opt_bool("translator/enable_charset_filter"@, c.translator.enable_charset_filter)
        + opt_bool("translator/enable_completion"@, c.translator.enable_completion) + opt_bool(
        "translator/enable_sentence"@,
        c.translator.enable_sentence,
    ) + opt_bool("translator/enable_user_dict"@, c.translator.enable_user_dict) + opt_bool(
        "translator/enable_encoder"@,
        c.translator.enable_encoder,
    ) + opt_bool("translator/encode_commit_history"@, c.translator.encode_commit_history)
        + opt_int("translator/max_phrase_length"@, c.translator.max_phrase_length) + opt_text(
        "reverse_lookup/prefix"@,
        c.reverse_lookup.prefix,
    ) + opt_text("reverse_lookup/suffix"@, c.reverse_lookup.suffix) + opt_text(
        "tradition/opencc_config"@,
        c.tradition.opencc_config,
    )
}

/// How many settings of a schema are set (an empty "auto clear" counts as
/// unset).
pub open spec fn set_field_count(c: SchemaConfig) -> int {
    (if c.speller.max_code_length is Some { 1int } else { 0 })
    + (if c.speller.auto_select is Some { 1int } else { 0 })
    + (if c.speller.auto_clear matches Some(v) && v@.len() > 0 { 1int } else { 0 })
    + (if c.translator.enable_charset_filter is Some { 1int } else { 0 })
    + (if c.translator.enable_completion is Some { 1int } else { 0 })
    + (if c.translator.enable_sentence is Some { 1int } else { 0 })
    + (if c.translator.enable_user_dict is Some { 1int } else { 0 })
    + (if c.translator.enable_encoder is Some { 1int } else { 0 })
    + (if c.translator.encode_commit_history is Some { 1int } else { 0 })
    + (if c.translator.max_phrase_length is Some { 1int } else { 0 })
    + (if c.reverse_lookup.prefix is Some { 1int } else { 0 })
    + (if c.reverse_lookup.suffix is Some { 1int } else { 0 })
    + (if c.tradition.opencc_config is Some { 1int } else { 0 })
}

/// The pieces joined in order.
spec fn concat_all(ps: Seq<Seq<SettingView>>) -> Seq<SettingView>
    decreases ps.len(),
{
    if ps.len() == 0 {
        Seq::empty()
    } else {
        concat_all(ps.drop_last()) + ps.last()
    }
}

/// Whatever a piece holds, the joined pieces hold, and their length is the
/// sum of the pieces' lengths.
proof fn lemma_concat_all(ps: Seq<Seq<SettingView>>, k: int, x: SettingView)
    requires
        0 <= k < ps.len(),
        ps[k].contains(x),
    ensures
        concat_all(ps).contains(x),
    decreases ps.len(),
{
    let l = concat_all(ps.drop_last());
    if k == ps.len() - 1 {
        let j = choose|j: int| 0 <= j < ps[k].len() && ps[k][j] == x;
        assert((l + ps.last())[l.len() + j] == x);
    } else {
        assert(ps.drop_last()[k] == ps[k]);
        lemma_concat_all(ps.drop_last(), k, x);
        let i = choose|i: int| 0 <= i < l.len() && l[i] == x;
        assert((l + ps.last())[i] == x);
    }
}

/// The settings of each field of a schema, in the order they are written.
spec fn schema_pieces(c: SchemaConfig) -> Seq<Seq<SettingView>> {
    seq![
        opt_int("speller/max_code_length"@, c.speller.max_code_length),
        opt_bool("speller/auto_select"@, c.speller.auto_select),
        match c.speller.auto_clear {
            Some(v) if v@.len() > 0 => seq![("speller/auto_clear"@, 2int, v@)],
            _ => Seq::empty(),
        },
        opt_bool("translator/enable_charset_filter"@, c.translator.enable_charset_filter),
        opt_bool("translator/enable_completion"@, c.translator.enable_completion),
        opt_bool("translator/enable_sentence"@, c.translator.enable_sentence),
        opt_bool("translator/enable_user_dict"@, c.translator.enable_user_dict),
        opt_bool("translator/enable_encoder"@, c.translator.enable_encoder),
        opt_bool("translator/encode_commit_history"@, c.translator.encode_commit_history),
        opt_int("translator/max_phrase_length"@, c.translator.max_phrase_length),
        opt_text("reverse_lookup/prefix"@, c.reverse_lookup.prefix),
        opt_text("reverse_lookup/suffix"@, c.reverse_lookup.suffix),
        opt_text("tradition/opencc_config"@, c.tradition.opencc_config)
    ]
}

proof fn lemma_schema_pieces(c: SchemaConfig)
    ensures
        schema_settings(c) == concat_all(schema_pieces(c)),
{
    let p1 = opt_int("speller/max_code_length"@, c.speller.max_code_length);
    let p2 = opt_bool("speller/auto_select"@, c.speller.auto_select);
    let p3: Seq<SettingView> = match c.speller.auto_clear {
        Some(v) if v@.len() > 0 => seq![("speller/auto_clear"@, 2int, v@)],
        _ => Seq::empty(),
    };
    let p4 = opt_bool("translator/enable_charset_filter"@, c.translator.enable_charset_filter);
    let p5 = opt_bool("translator/enable_completion"@, c.translator.enable_completion);
    let p6 = opt_bool("translator/enable_sentence"@, c.translator.enable_sentence);
    let p7 = opt_bool("translator/enable_user_dict"@, c.translator.enable_user_dict);
    let p8 = opt_bool("translator/enable_encoder"@, c.translator.enable_encoder);
    let p9 = opt_bool("translator/encode_commit_history"@, c.translator.encode_commit_history);
    let p10 = opt_int("translator/max_phrase_length"@, c.translator.max_phrase_length);
    let p11 = opt_text("reverse_lookup/prefix"@, c.reverse_lookup.prefix);
    let p12 = opt_text("reverse_lookup/suffix"@, c.reverse_lookup.suffix);
    let p13 = opt_text("tradition/opencc_config"@, c.tradition.opencc_config);
    let ps = seq![p1, p2, p3, p4, p5, p6, p7, p8, p9, p10, p11, p12, p13];
    assert(ps == schema_pieces(c));
    assert(schema_settings(c) == concat_all(ps)) by {
        reveal_with_fuel(concat_all, 14);
        assert(ps.drop_last().drop_last().drop_last().drop_last().drop_last().drop_last().drop_last().drop_last().drop_last().drop_last().drop_last().drop_last() =~= seq![p1]);
        assert(ps.drop_last().drop_last().drop_last().drop_last().drop_last().drop_last().drop_last().drop_last().drop_last().drop_last().drop_last() =~= seq![p1, p2]);
        assert(ps.drop_last().drop_last().drop_last().drop_last().drop_last().drop_last().drop_last().drop_last().drop_last().drop_last() =~= seq![p1, p2, p3]);
        assert(ps.drop_last().drop_last().drop_last().drop_last().drop_last().drop_last().drop_last().drop_last().drop_last() =~= seq![p1, p2, p3, p4]);
        assert(ps.drop_last().drop_last().drop_last().drop_last().drop_last().drop_last().drop_last().drop_last() =~= seq![p1, p2, p3, p4, p5]);
        assert(ps.drop_last().drop_last().drop_last().drop_last().drop_last().drop_last().drop_last() =~= seq![p1, p2, p3, p4, p5, p6]);
        assert(ps.drop_last().drop_last().drop_last().drop_last().drop_last().drop_last() =~= seq![p1, p2, p3, p4, p5, p6, p7]);
        assert(ps.drop_last().drop_last().drop_last().drop_last().drop_last() =~= seq![p1, p2, p3, p4, p5, p6, p7, p8]);
        assert(ps.drop_last().drop_last().drop_last().drop_last() =~= seq![p1, p2, p3, p4, p5, p6, p7, p8, p9]);
        assert(ps.drop_last().drop_last().drop_last() =~= seq![p1, p2, p3, p4, p5, p6, p7, p8, p9, p10]);
        assert(ps.drop_last().drop_last() =~= seq![p1, p2, p3, p4, p5, p6, p7, p8, p9, p10, p11]);
        assert(ps.drop_last() =~= seq![p1, p2, p3, p4, p5, p6, p7, p8, p9, p10, p11, p12]);
        assert(concat_all(seq![p1]) =~= p1);
    }
}

proof fn lemma_schema_count(c: SchemaConfig)
    ensures
        schema_settings(c).len() == set_field_count(c),
{
}

proof fn lemma_piece_first(c: SchemaConfig, k: int)
    requires
        0 <= k < 13,
        schema_pieces(c)[k].len() > 0,
    ensures
        schema_settings(c).contains(schema_pieces(c)[k][0]),
{
    lemma_schema_pieces(c);
    assert(schema_pieces(c)[k].contains(schema_pieces(c)[k][0]));
    lemma_concat_all(schema_pieces(c), k, schema_pieces(c)[k][0]);
}

/// Saving a schema writes one setting for each field that is set, under
/// that field's key and with its value, and nothing else.
#[verifier::rlimit(80)]
pub proof fn lemma_schema_settings_cover_fields(c: SchemaConfig)
    ensures
        schema_settings(c).len() == set_field_count(c),
        c.speller.max_code_length matches Some(n) ==> schema_settings(c).contains(
            ("speller/max_code_length"@, 0int, int_text(n as int)),
        ),
        c.speller.auto_select matches Some(b) ==> schema_settings(c).contains(
            ("speller/auto_select"@, 1int, bool_text(b)),
        ),
        c.speller.auto_clear matches Some(t) ==> (t@.len() > 0 ==> schema_settings(c).contains(
            ("speller/auto_clear"@, 2int, t@),
        )),
        c.translator.enable_charset_filter matches Some(b) ==> schema_settings(c).contains(
            ("translator/enable_charset_filter"@, 1int, bool_text(b)),
        ),
        c.translator.enable_completion matches Some(b) ==> schema_settings(c).contains(
            ("translator/enable_completion"@, 1int, bool_text(b)),
        ),
        c.translator.enable_sentence matches Some(b) ==> schema_settings(c).contains(
            ("translator/enable_sentence"@, 1int, bool_text(b)),
        ),
        c.translator.enable_user_dict matches Some(b) ==> schema_settings(c).contains(
            ("translator/enable_user_dict"@, 1int, bool_text(b)),
        ),
        c.translator.enable_encoder matches Some(b) ==> schema_settings(c).contains(
            ("translator/enable_encoder"@, 1int, bool_text(b)),
        ),
        c.translator.encode_commit_history matches Some(b) ==> schema_settings(c).contains(
            ("translator/encode_commit_history"@, 1int, bool_text(b)),
        ),
        c.translator.max_phrase_length matches Some(n) ==> schema_settings(c).contains(
            ("translator/max_phrase_length"@, 0int, int_text(n as int)),
        ),
        c.reverse_lookup.prefix matches Some(t) ==> schema_settings(c).contains(
            ("reverse_lookup/prefix"@, 2int, t@),
        ),
        c.reverse_lookup.suffix matches Some(t) ==> schema_settings(c).contains(
            ("reverse_lookup/suffix"@, 2int, t@),
        ),
        c.tradition.opencc_config matches Some(t) ==> schema_settings(c).contains(
            ("tradition/opencc_config"@, 2int, t@),
        ),
{
    lemma_schema_count(c);
    let ps = schema_pieces(c);
    if ps[0].len() > 0 {
        lemma_piece_first(c, 0);
    }
    if ps[1].len() > 0 {
        lemma_piece_first(c, 1);
    }
    if ps[2].len() > 0 {
        lemma_piece_first(c, 2);
    }
    if ps[3].len() > 0 {
        lemma_piece_first(c, 3);
    }
    if ps[4].len() > 0 {
        lemma_piece_first(c, 4);
    }
    if ps[5].len() > 0 {
        lemma_piece_first(c, 5);
    }
    if ps[6].len() > 0 {
        lemma_piece_first(c, 6);
    }
    if ps[7].len() > 0 {
        lemma_piece_first(c, 7);
    }
    if ps[8].len() > 0 {
        lemma_piece_first(c, 8);
    }
    if ps[9].len() > 0 {
        lemma_piece_first(c, 9);
    }
    if ps[10].len() > 0 {
        lemma_piece_first(c, 10);
    }
    if ps[11].len() > 0 {
        lemma_piece_first(c, 11);
    }
    if ps[12].len() > 0 {
        lemma_piece_first(c, 12);
    }
}

fn push_int(out: &mut Vec<Setting>, key: &str, v: Option<i32>)
    ensures
        setting_views(final(out)@) == setting_views(old(out)@) + opt_int(key@, v),
{
    let ghost before = setting_views(out@);
    if let Some(x) = v {
        out.push(Setting { key: owned(key), value: SettingValue::Int(x) });
        assert(setting_views(out@) =~= before + opt_int(key@, v));
    } else {
        assert(setting_views(out@) =~= before + opt_int(key@, v));
    }
}

fn push_bool(out: &mut Vec<Setting>, key: &str, v: Option<bool>)
    ensures
        setting_views(final(out)@) == setting_views(old(out)@) + opt_bool(key@, v),
{
    let ghost before = setting_views(out@);
    if let Some(x) = v {
        out.push(Setting { key: owned(key), value: SettingValue::Bool(x) });
        assert(setting_views(out@) =~= before + opt_bool(key@, v));
    } else {
        assert(setting_views(out@) =~= before + opt_bool(key@, v));
    }
}

fn push_text(out: &mut Vec<Setting>, key: &str, v: &Option<String>)
    ensures
        setting_views(final(out)@) == setting_views(old(out)@) + opt_text(key@, *v),
{
    let ghost before = setting_views(out@);
    if let Some(x) = v {
        out.push(Setting { key: owned(key), value: SettingValue::Text(owned(x.as_str())) });
        assert(setting_views(out@) =~= before + opt_text(key@, *v));
    } else {
        assert(setting_views(out@) =~= before + opt_text(key@, *v));
    }
}

/// The settings of a schema to write on saving, in order.
pub fn schema_config_settings(config: &SchemaConfig) -> (r: Vec<Setting>)
    ensures
        setting_views(r@) == schema_settings(*config),
{
    let mut out: Vec<Setting> = Vec::new();
    assert(setting_views(out@) =~= Seq::<SettingView>::empty());
    push_int(&mut out, "speller/max_code_length", config.speller.max_code_length);
    push_bool(&mut out, "speller/auto_select", config.speller.auto_select);
    let ghost before = setting_views(out@);
    match &config.speller.auto_clear {
        Some(v) => {
            if v.as_str().unicode_len() > 0 {
                out.push(Setting { key: owned("speller/auto_clear"), value: SettingValue::Text(owned(v.as_str())) });
                assert(setting_views(out@) =~= before + seq![("speller/auto_clear"@, 2int, v@)]);
            } else {
                assert(setting_views(out@) =~= before + Seq::<SettingView>::empty());
            }
        },
        None => {
            assert(setting_views(out@) =~= before + Seq::<SettingView>::empty());
        },
    }
    push_bool(&mut out, "translator/enable_charset_filter", config.translator.enable_charset_filter);
    push_bool(&mut out, "translator/enable_completion", config.translator.enable_completion);
    push_bool(&mut out, "translator/enable_sentence", config.translator.enable_sentence);
    push_bool(&mut out, "translator/enable_user_dict", config.translator.enable_user_dict);
    push_bool(&mut out, "translator/enable_encoder", config.translator.enable_encoder);
    push_bool(&mut out, "translator/encode_commit_history", config.translator.encode_commit_history);
    push_int(&mut out, "translator/max_phrase_length", config.translator.max_phrase_length);
    push_text(&mut out, "reverse_lookup/prefix", &config.reverse_lookup.prefix);
    push_text(&mut out, "reverse_lookup/suffix", &config.reverse_lookup.suffix);
    push_text(&mut out, "tradition/opencc_config", &config.tradition.opencc_config);
    out
}

/// The smart-suggestion settings shown in the settings program.
#[derive(Debug, Clone, Copy)]
pub struct SmartSuggestionState {
    pub enabled: bool,
    pub suggestion_count: i32,
    pub prefer_common_words: bool,
    pub record_user_frequency: bool,
    pub auto_adjust_frequency: bool,
    pub learning_threshold: i32,
}

impl Default for SmartSuggestionState {
    fn default() -> (s: Self)
        ensures
            !s.enabled && s.suggestion_count == 0 && !s.prefer_common_words
                && !s.record_user_frequency && !s.auto_adjust_frequency && s.learning_threshold == 0,
    {
        SmartSuggestionState {
            enabled: false,
            suggestion_count: 0,
            prefer_common_words: false,
            record_user_frequency: false,
            auto_adjust_frequency: false,
            learning_threshold: 0,
        }
    }
}

/// The smart-suggestion settings written on saving, in order.
pub open spec fn suggestion_settings(s: SmartSuggestionState) -> Seq<SettingView> {
    seq![
        ("smart_suggestion/enabled"@, 1int, bool_text(s.enabled)),
        ("smart_suggestion/suggestion_count"@, 0int, int_text(s.suggestion_count as int)),
        ("smart_suggestion/prefer_common_words"@, 1int, bool_text(s.prefer_common_words)),
        ("smart_suggestion/record_user_frequency"@, 1int, bool_text(s.record_user_frequency)),
        ("smart_suggestion/auto_adjust_frequency"@, 1int, bool_text(s.auto_adjust_frequency)),
        ("smart_suggestion/learning_threshold"@, 0int, int_text(s.learning_threshold as int)),
    ]
}

impl SmartSuggestionState {
    /// The settings written on saving, in order.
    pub fn settings(&self) -> (r: Vec<Setting>)
        ensures
            setting_views(r@) == suggestion_settings(*self),
    {
        let mut out: Vec<Setting> = Vec::new();
        out.push(Setting { key: owned("smart_suggestion/enabled"), value: SettingValue::Bool(self.enabled) });
        out.push(Setting { key: owned("smart_suggestion/suggestion_count"), value: SettingValue::Int(self.suggestion_count) });
        out.push(Setting { key: owned("smart_suggestion/prefer_common_words"), value: SettingValue::Bool(self.prefer_common_words) });
        out.push(Setting { key: owned("smart_suggestion/record_user_frequency"), value: SettingValue::Bool(self.record_user_frequency) });
        out.push(Setting { key: owned("smart_suggestion/auto_adjust_frequency"), value: SettingValue::Bool(self.auto_adjust_frequency) });
        out.push(Setting { key: owned("smart_suggestion/learning_threshold"), value: SettingValue::Int(self.learning_threshold) });
        assert(setting_views(out@) =~= suggestion_settings(*self));
        out
    }
}

/// The patch file after writing `settings` one after the other with the
/// given indentation; `existing` is the file before, `None` when missing.
/// Without settings nothing is written.
pub open spec fn applied(existing: Option<Seq<char>>, indent: Seq<char>, settings: Seq<SettingView>) -> Option<
    Seq<char>,
>
    decreases settings.len(),
{
    if settings.len() == 0 {
        existing
    } else {
        let s = settings.last();
        Some(set_in_patch(applied(existing, indent, settings.drop_last()), indent, s.0, s.2))
    }
}

/// The text a setting's value is written as.
fn value_text(v: &SettingValue) -> (t: String)
    ensures
        t@ == match *v {
            SettingValue::Int(x) => int_text(x as int),
            SettingValue::Bool(b) => bool_text(b),
            SettingValue::Text(s) => s@,
        },
{
    match v {
        SettingValue::Int(x) => i32_text(*x),
        SettingValue::Bool(b) => bool_str(*b),
        SettingValue::Text(t) => owned(t.as_str()),
    }
}

/// Writes the settings one after the other into a patch file.
fn apply_with(indent: &str, existing: Option<&str>, settings: &Vec<Setting>) -> (r: Option<String>)
    ensures
        opt_seq(r) == applied(opt_str_view(existing), indent@, setting_views(settings@)),
{
    let mut cur: Option<String> = match existing {
        Some(e) => Some(owned(e)),
        None => None,
    };
    let mut i: usize = 0;
    while i < settings.len()
        invariant
            i <= settings@.len(),
            opt_seq(cur) == applied(opt_str_view(existing), indent@, setting_views(settings@).take(i as int)),
        decreases settings.len() - i,
    {
        let s = &settings[i];
        let text = value_text(&s.value);
        let next = match &cur {
            Some(c) => crate::rime_config::write_setting(Some(c.as_str()), indent, s.key.as_str(), text.as_str()),
            None => crate::rime_config::write_setting(None, indent, s.key.as_str(), text.as_str()),
        };
        proof {
            let sv = setting_views(settings@);
            assert(sv.take(i + 1).drop_last() =~= sv.take(i as int));
            assert(sv.take(i + 1).last() == sv[i as int]);
            assert(sv[i as int] == setting_view(settings@[i as int]));
        }
        cur = Some(next);
        i = i + 1;
    }
    assert(setting_views(settings@).take(i as int) =~= setting_views(settings@));
    cur
}

/// The view of an optional string.
pub open spec fn opt_seq(o: Option<String>) -> Option<Seq<char>> {
    match o {
        Some(s) => Some(s@),
        None => None,
    }
}

impl SchemaConfigManager {
    /// The schema's patch file after writing `settings` one after the other;
    /// `existing` is its text before, `None` when it is missing.
    pub fn apply_settings(&self, existing: Option<&str>, settings: &Vec<Setting>) -> (r: Option<String>)
        ensures
            opt_seq(r) == applied(opt_str_view(existing), "  "@, setting_views(settings@)),
    {
        apply_with("  ", existing, settings)
    }
}

impl RimeConfigManager {
    /// `xime.custom.yaml` after writing `settings` one after the other;
    /// `existing` is its text before, `None` when it is missing.
    pub fn apply_settings(&self, existing: Option<&str>, settings: &Vec<Setting>) -> (r: Option<String>)
        ensures
            opt_seq(r) == applied(opt_str_view(existing), "    "@, setting_views(settings@)),
    {
        apply_with("    ", existing, settings)
    }
}

/// The schema chosen in the settings program and the schemas to choose from.
pub struct InputSchemaState {
    pub selected_schema: usize,
    pub available_schemas: Vec<SchemaInfo>,
    pub schema_config: SchemaConfig,
    pub config_loaded: bool,
}

impl InputSchemaState {
    /// The id of the chosen schema, when the choice is in range.
    pub fn selected_schema_id(&self) -> (r: Option<String>)
        ensures
            self.selected_schema < self.available_schemas@.len() ==> (r matches Some(id) && id@
                == self.available_schemas@[self.selected_schema as int].schema_id@),
            self.selected_schema >= self.available_schemas@.len() ==> r is None,
    {
        if self.selected_schema < self.available_schemas.len() {
            Some(owned(self.available_schemas[self.selected_schema].schema_id.as_str()))
        } else {
            None
        }
    }
}

/// The color of the scheme named `scheme` among `(id, name, color)`
/// entries: the first entry with that id, else lavender purple.
pub open spec fn scheme_color(schemes: Seq<(String, String, u32)>, scheme: Seq<char>) -> u32
    decreases schemes.len(),
{
    if schemes.len() == 0 {
        0x8F73E2
    } else if schemes[0].0@ == scheme {
        schemes[0].2
    } else {
        scheme_color(schemes.drop_first(), scheme)
    }
}

/// The primary color of the chosen color scheme.
pub fn primary_color_in(schemes: &Vec<(String, String, u32)>, scheme: &str) -> (c: u32)
    ensures
        c == scheme_color(schemes@, scheme@),
{
    let mut i: usize = 0;
    assert(schemes@.skip(0) =~= schemes@);
    while i < schemes.len()
        invariant
            i <= schemes@.len(),
            scheme_color(schemes@, scheme@) == scheme_color(schemes@.skip(i as int), scheme@),
        decreases schemes.len() - i,
    {
        assert(schemes@.skip(i as int)[0] == schemes@[i as int]);
        assert(schemes@.skip(i as int).drop_first() =~= schemes@.skip(i + 1));
        if crate::keys::same_text(schemes[i].0.as_str(), scheme) {
            return schemes[i].2;
        }
        i = i + 1;
    }
    0x8F73E2
}

/// The message shown after deploying: success, with or without the daemon
/// reloading, or the failure.
pub fn deploy_message(result: &Result<(), String>, daemon_reloaded: bool) -> (m: String)
    ensures
        (result is Ok && daemon_reloaded) ==> m@ == "部署成功！配置已重载。"@,
        (result is Ok && !daemon_reloaded) ==> m@ == "部署成功！(服务器未运行，配置将在下次启动时生效)"@,
        (result matches Err(e) ==> m@ == "部署失败: "@ + e@),
{
    match result {
        Ok(_) => {
            if daemon_reloaded {
                owned("部署成功！配置已重载。")
            } else {
                owned("部署成功！(服务器未运行，配置将在下次启动时生效)")
            }
        },
        Err(e) => concat("部署失败: ", e.as_str()),
    }
}

/// The icon of the settings page at `index` (the pages are: input schema,
/// appearance, hotkeys, sync, about); any other index shows the first icon.
pub fn get_page_icon(index: usize) -> (r: &'static str)
    ensures
        r@ == if index == 1 {
            "icons/palette.svg"@
        } else if index == 2 {
            "icons/command.svg"@
        } else if index == 3 {
            "icons/sync.svg"@
        } else if index == 4 {
            "icons/about.svg"@
        } else {
            "icons/keyboard.svg"@
        },
{
    match index {
        0 => "icons/keyboard.svg",
        1 => "icons/palette.svg",
        2 => "icons/command.svg",
        3 => "icons/sync.svg",
        4 => "icons/about.svg",
        _ => "icons/keyboard.svg",
    }
}

} // verus!
