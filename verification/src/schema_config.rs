//! Per-schema settings (speller, translator, reverse lookup, tradition),
//! how a user's custom patch overrides a schema's own settings, and how a
//! setting is written into a `*.custom.yaml` patch file.

use vstd::prelude::*;

use crate::text::{chars_of, string_of, split_lines, join_chars, lines, join, trim, CharClass};

verus! {

/// Speller settings of a schema.
#[derive(Clone, Debug)]
pub struct SpellerConfig {
    pub max_code_length: Option<i32>,
    pub auto_select: Option<bool>,
    pub auto_clear: Option<String>,
}

/// Translator settings of a schema.
#[derive(Clone, Debug)]
pub struct TranslatorConfig {
    pub enable_charset_filter: Option<bool>,
    pub enable_completion: Option<bool>,
    pub enable_sentence: Option<bool>,
    pub enable_user_dict: Option<bool>,
    pub enable_encoder: Option<bool>,
    pub encode_commit_history: Option<bool>,
    pub max_phrase_length: Option<i32>,
}

/// Reverse-lookup settings of a schema.
#[derive(Clone, Debug)]
pub struct ReverseLookupConfig {
    pub prefix: Option<String>,
    pub suffix: Option<String>,
}

/// Traditional-Chinese conversion settings of a schema.
#[derive(Clone, Debug)]
pub struct TraditionConfig {
    pub opencc_config: Option<String>,
}

/// All settings of a schema that the settings program edits.
#[derive(Clone, Debug)]
pub struct SchemaConfig {
    pub speller: SpellerConfig,
    pub translator: TranslatorConfig,
    pub reverse_lookup: ReverseLookupConfig,
    pub tradition: TraditionConfig,
}

impl Default for SpellerConfig {
    fn default() -> (c: Self)
        ensures
            c.max_code_length is None && c.auto_select is None && c.auto_clear is None,
    {
        SpellerConfig { max_code_length: None, auto_select: None, auto_clear: None }
    }
}

impl Default for TranslatorConfig {
    fn default() -> (c: Self)
        ensures
            c.enable_charset_filter is None && c.enable_completion is None && c.enable_sentence is None
                && c.enable_user_dict is None && c.enable_encoder is None
                && c.encode_commit_history is None && c.max_phrase_length is None,
    {
        TranslatorConfig {
            enable_charset_filter: None,
            enable_completion: None,
            enable_sentence: None,
            enable_user_dict: None,
            enable_encoder: None,
            encode_commit_history: None,
            max_phrase_length: None,
        }
    }
}

impl Default for ReverseLookupConfig {
    fn default() -> (c: Self)
        ensures
            c.prefix is None && c.suffix is None,
    {
        ReverseLookupConfig { prefix: None, suffix: None }
    }
}

impl Default for TraditionConfig {
    fn default() -> (c: Self)
        ensures
            c.opencc_config is None,
    {
        TraditionConfig { opencc_config: None }
    }
}

/// A schema configuration with nothing set.
pub open spec fn is_unset(c: SchemaConfig) -> bool {
    &&& c.speller.max_code_length is None && c.speller.auto_select is None
        && c.speller.auto_clear is None
    &&& c.translator.enable_charset_filter is None && c.translator.enable_completion is None
        && c.translator.enable_sentence is None && c.translator.enable_user_dict is None
        && c.translator.enable_encoder is None && c.translator.encode_commit_history is None
        && c.translator.max_phrase_length is None
    &&& c.reverse_lookup.prefix is None && c.reverse_lookup.suffix is None
    &&& c.tradition.opencc_config is None
}

impl Default for SchemaConfig {
    fn default() -> (c: Self)
        ensures
            is_unset(c),
    {
        SchemaConfig {
            speller: SpellerConfig::default(),
            translator: TranslatorConfig::default(),
            reverse_lookup: ReverseLookupConfig::default(),
            tradition: TraditionConfig::default(),
        }
    }
}

/// `custom` when it is set, otherwise `base` (`Option::or`).
pub open spec fn prefer<T>(custom: Option<T>, base: Option<T>) -> Option<T> {
    match custom {
        Some(v) => Some(v),
        None => base,
    }
}

fn or_i32(custom: Option<i32>, base: Option<i32>) -> (r: Option<i32>)
    ensures
        r == prefer(custom, base),
{
    match custom {
        Some(v) => Some(v),
        None => base,
    }
}

fn or_bool(custom: Option<bool>, base: Option<bool>) -> (r: Option<bool>)
    ensures
        r == prefer(custom, base),
{
    match custom {
        Some(v) => Some(v),
        None => base,
    }
}

fn or_string(custom: Option<String>, base: Option<String>) -> (r: Option<String>)
    ensures
        r == prefer(custom, base),
{
    match custom {
        Some(v) => Some(v),
        None => base,
    }
}

/// Speller settings with each custom value overriding the base one.
pub open spec fn spec_merge_speller(base: SpellerConfig, custom: SpellerConfig) -> SpellerConfig {
    SpellerConfig {
        max_code_length: prefer(custom.max_code_length, base.max_code_length),
        auto_select: prefer(custom.auto_select, base.auto_select),
        auto_clear: prefer(custom.auto_clear, base.auto_clear),
    }
}

/// Translator settings with each custom value overriding the base one.
pub open spec fn spec_merge_translator(base: TranslatorConfig, custom: TranslatorConfig) -> TranslatorConfig {
    TranslatorConfig {
        enable_charset_filter: prefer(custom.enable_charset_filter, base.enable_charset_filter),
        enable_completion: prefer(custom.enable_completion, base.enable_completion),
        enable_sentence: prefer(custom.enable_sentence, base.enable_sentence),
        enable_user_dict: prefer(custom.enable_user_dict, base.enable_user_dict),
        enable_encoder: prefer(custom.enable_encoder, base.enable_encoder),
        encode_commit_history: prefer(custom.encode_commit_history, base.encode_commit_history),
        max_phrase_length: prefer(custom.max_phrase_length, base.max_phrase_length),
    }
}

/// Reverse-lookup settings with each custom value overriding the base one.
pub open spec fn spec_merge_reverse_lookup(
    base: ReverseLookupConfig,
    custom: ReverseLookupConfig,
) -> ReverseLookupConfig {
    ReverseLookupConfig {
        prefix: prefer(custom.prefix, base.prefix),
        suffix: prefer(custom.suffix, base.suffix),
    }
}

/// Speller settings with each custom value overriding the base one.
pub fn merge_speller(base: SpellerConfig, custom: SpellerConfig) -> (r: SpellerConfig)
    ensures
        r == spec_merge_speller(base, custom),
{
    SpellerConfig {
        max_code_length: or_i32(custom.max_code_length, base.max_code_length),
        auto_select: or_bool(custom.auto_select, base.auto_select),
        auto_clear: or_string(custom.auto_clear, base.auto_clear),
    }
}

/// Translator settings with each custom value overriding the base one.
pub fn merge_translator(base: TranslatorConfig, custom: TranslatorConfig) -> (r: TranslatorConfig)
    ensures
        r == spec_merge_translator(base, custom),
{
    TranslatorConfig {
        enable_charset_filter: or_bool(custom.enable_charset_filter, base.enable_charset_filter),
        enable_completion: or_bool(custom.enable_completion, base.enable_completion),
        enable_sentence: or_bool(custom.enable_sentence, base.enable_sentence),
        enable_user_dict: or_bool(custom.enable_user_dict, base.enable_user_dict),
        enable_encoder: or_bool(custom.enable_encoder, base.enable_encoder),
        encode_commit_history: or_bool(custom.encode_commit_history, base.encode_commit_history),
        max_phrase_length: or_i32(custom.max_phrase_length, base.max_phrase_length),
    }
}

/// Reverse-lookup settings with each custom value overriding the base one.
pub fn merge_reverse_lookup(base: ReverseLookupConfig, custom: ReverseLookupConfig) -> (r:
    ReverseLookupConfig)
    ensures
        r == spec_merge_reverse_lookup(base, custom),
{
    ReverseLookupConfig {
        prefix: or_string(custom.prefix, base.prefix),
        suffix: or_string(custom.suffix, base.suffix),
    }
}

/// The settings in effect: the schema's own (`base`, nothing set when there
/// is none) overridden field by field by the user's patch (`custom`), whose
/// tradition settings replace the schema's whole.
pub open spec fn spec_merge_configs(base: Option<SchemaConfig>, custom: Option<SchemaConfig>) -> SchemaConfig {
    let b = match base {
        Some(b) => b,
        None => SchemaConfig {
            speller: SpellerConfig::spec_unset(),
            translator: TranslatorConfig::spec_unset(),
            reverse_lookup: ReverseLookupConfig::spec_unset(),
            tradition: TraditionConfig { opencc_config: None },
        },
    };
    match custom {
        Some(c) => SchemaConfig {
            speller: spec_merge_speller(b.speller, c.speller),
            translator: spec_merge_translator(b.translator, c.translator),
            reverse_lookup: spec_merge_reverse_lookup(b.reverse_lookup, c.reverse_lookup),
            tradition: c.tradition,
        },
        None => b,
    }
}

/// The settings in effect: the schema's own (`base`) overridden by the user's patch (`custom`).
pub fn merge_configs(base: Option<SchemaConfig>, custom: Option<SchemaConfig>) -> (r: SchemaConfig)
    ensures
        r == spec_merge_configs(base, custom),
        custom is Some ==> r == match base {
            Some(b) => SchemaConfig {
                speller: spec_merge_speller(b.speller, custom->0.speller),
                translator: spec_merge_translator(b.translator, custom->0.translator),
                reverse_lookup: spec_merge_reverse_lookup(b.reverse_lookup, custom->0.reverse_lookup),
                tradition: custom->0.tradition,
            },
            None => SchemaConfig {
                speller: spec_merge_speller(SpellerConfig::spec_unset(), custom->0.speller),
                translator: spec_merge_translator(TranslatorConfig::spec_unset(), custom->0.translator),
                reverse_lookup: spec_merge_reverse_lookup(
                    ReverseLookupConfig::spec_unset(),
                    custom->0.reverse_lookup,
                ),
                tradition: custom->0.tradition,
            },
        },
        custom is None && base is Some ==> r == base->0,
        custom is None && base is None ==> is_unset(r),
{
    let mut result = match base {
        Some(b) => b,
        None => SchemaConfig::default(),
    };
    if let Some(c) = custom {
        result.speller = merge_speller(result.speller, c.speller);
        result.translator = merge_translator(result.translator, c.translator);
        result.reverse_lookup = merge_reverse_lookup(result.reverse_lookup, c.reverse_lookup);
        result.tradition = c.tradition;
    }
    result
}

impl SpellerConfig {
    /// Speller settings with nothing set.
    pub open spec fn spec_unset() -> SpellerConfig {
        SpellerConfig { max_code_length: None, auto_select: None, auto_clear: None }
    }
}

impl TranslatorConfig {
    /// Translator settings with nothing set.
    pub open spec fn spec_unset() -> TranslatorConfig {
        TranslatorConfig {
            enable_charset_filter: None,
            enable_completion: None,
            enable_sentence: None,
            enable_user_dict: None,
            enable_encoder: None,
            encode_commit_history: None,
            max_phrase_length: None,
        }
    }
}

impl ReverseLookupConfig {
    /// Reverse-lookup settings with nothing set.
    pub open spec fn spec_unset() -> ReverseLookupConfig {
        ReverseLookupConfig { prefix: None, suffix: None }
    }
}

/// Merging a patch into settings is idempotent: applying the same patch
/// twice gives what applying it once gives.
pub proof fn lemma_merge_speller_idempotent(base: SpellerConfig, custom: SpellerConfig)
    ensures
        spec_merge_speller(spec_merge_speller(base, custom), custom) == spec_merge_speller(
            base,
            custom,
        ),
{
}

/// A patch that sets nothing leaves the settings as they are.
pub proof fn lemma_merge_unset_patch(base: SchemaConfig, tradition: TraditionConfig)
    ensures
        spec_merge_speller(base.speller, SpellerConfig::spec_unset()) == base.speller,
        spec_merge_translator(base.translator, TranslatorConfig::spec_unset()) == base.translator,
        spec_merge_reverse_lookup(base.reverse_lookup, ReverseLookupConfig::spec_unset())
            == base.reverse_lookup,
{
}

/// Every value the patch sets wins over the schema's.
pub proof fn lemma_merge_custom_wins(base: TranslatorConfig, custom: TranslatorConfig)
    ensures
        custom.max_phrase_length is Some ==> spec_merge_translator(base, custom).max_phrase_length
            == custom.max_phrase_length,
        custom.enable_user_dict is Some ==> spec_merge_translator(base, custom).enable_user_dict
            == custom.enable_user_dict,
        custom.enable_completion is Some ==> spec_merge_translator(base, custom).enable_completion
            == custom.enable_completion,
{
}

/// In the merged speller settings each field is the patch's value when the
/// patch sets it, and the schema's own value when it does not.
pub proof fn lemma_merge_speller_patch_wins(base: SpellerConfig, custom: SpellerConfig)
    ensures
        ({
            let m = spec_merge_speller(base, custom);
            &&& custom.max_code_length is Some ==> m.max_code_length == custom.max_code_length
            &&& custom.max_code_length is None ==> m.max_code_length == base.max_code_length
            &&& custom.auto_select is Some ==> m.auto_select == custom.auto_select
            &&& custom.auto_select is None ==> m.auto_select == base.auto_select
            &&& custom.auto_clear is Some ==> m.auto_clear == custom.auto_clear
            &&& custom.auto_clear is None ==> m.auto_clear == base.auto_clear
        }),
{
}

/// In the merged translator settings each field is the patch's value when
/// the patch sets it, and the schema's own value when it does not.
pub proof fn lemma_merge_translator_patch_wins(base: TranslatorConfig, custom: TranslatorConfig)
    ensures
        ({
            let m = spec_merge_translator(base, custom);
            &&& custom.enable_charset_filter is Some ==> m.enable_charset_filter == custom.enable_charset_filter
            &&& custom.enable_charset_filter is None ==> m.enable_charset_filter == base.enable_charset_filter
            &&& custom.enable_completion is Some ==> m.enable_completion == custom.enable_completion
            &&& custom.enable_completion is None ==> m.enable_completion == base.enable_completion
            &&& custom.enable_sentence is Some ==> m.enable_sentence == custom.enable_sentence
            &&& custom.enable_sentence is None ==> m.enable_sentence == base.enable_sentence
            &&& custom.enable_user_dict is Some ==> m.enable_user_dict == custom.enable_user_dict
            &&& custom.enable_user_dict is None ==> m.enable_user_dict == base.enable_user_dict
            &&& custom.enable_encoder is Some ==> m.enable_encoder == custom.enable_encoder
            &&& custom.enable_encoder is None ==> m.enable_encoder == base.enable_encoder
            &&& custom.encode_commit_history is Some ==> m.encode_commit_history == custom.encode_commit_history
            &&& custom.encode_commit_history is None ==> m.encode_commit_history == base.encode_commit_history
            &&& custom.max_phrase_length is Some ==> m.max_phrase_length == custom.max_phrase_length
            &&& custom.max_phrase_length is None ==> m.max_phrase_length == base.max_phrase_length
        }),
{
}

/// In the merged reverse-lookup settings each field is the patch's value
/// when the patch sets it, and the schema's own value when it does not.
pub proof fn lemma_merge_reverse_lookup_patch_wins(base: ReverseLookupConfig, custom: ReverseLookupConfig)
    ensures
        ({
            let m = spec_merge_reverse_lookup(base, custom);
            &&& custom.prefix is Some ==> m.prefix == custom.prefix
            &&& custom.prefix is None ==> m.prefix == base.prefix
            &&& custom.suffix is Some ==> m.suffix == custom.suffix
            &&& custom.suffix is None ==> m.suffix == base.suffix
        }),
{
}

/// The settings in effect after merging a patch: every field the patch sets
/// has the patch's value; every field it leaves unset keeps the schema's
/// value (unset when there is no schema); the tradition settings are the
/// patch's. Without a patch the schema's settings stand as they are.
pub proof fn lemma_merge_configs_patch_wins(base: Option<SchemaConfig>, custom: SchemaConfig)
    ensures
        ({
            let m = spec_merge_configs(base, Some(custom));
            &&& custom.speller.max_code_length is Some ==> m.speller.max_code_length == custom.speller.max_code_length
            &&& custom.speller.max_code_length is None ==> m.speller.max_code_length == match base {
                Some(b) => b.speller.max_code_length,
                None => None,
            }
            &&& custom.speller.auto_select is Some ==> m.speller.auto_select == custom.speller.auto_select
            &&& custom.speller.auto_select is None ==> m.speller.auto_select == match base {
                Some(b) => b.speller.auto_select,
                None => None,
            }
            &&& custom.speller.auto_clear is Some ==> m.speller.auto_clear == custom.speller.auto_clear
            &&& custom.speller.auto_clear is None ==> m.speller.auto_clear == match base {
                Some(b) => b.speller.auto_clear,
                None => None,
            }
            &&& custom.translator.enable_charset_filter is Some ==> m.translator.enable_charset_filter == custom.translator.enable_charset_filter
            &&& custom.translator.enable_charset_filter is None ==> m.translator.enable_charset_filter == match base {
                Some(b) => b.translator.enable_charset_filter,
                None => None,
            }
            &&& custom.translator.enable_completion is Some ==> m.translator.enable_completion == custom.translator.enable_completion
            &&& custom.translator.enable_completion is None ==> m.translator.enable_completion == match base {
                Some(b) => b.translator.enable_completion,
                None => None,
            }
            &&& custom.translator.enable_sentence is Some ==> m.translator.enable_sentence == custom.translator.enable_sentence
            &&& custom.translator.enable_sentence is None ==> m.translator.enable_sentence == match base {
                Some(b) => b.translator.enable_sentence,
                None => None,
            }
            &&& custom.translator.enable_user_dict is Some ==> m.translator.enable_user_dict == custom.translator.enable_user_dict
            &&& custom.translator.enable_user_dict is None ==> m.translator.enable_user_dict == match base {
                Some(b) => b.translator.enable_user_dict,
                None => None,
            }
            &&& custom.translator.enable_encoder is Some ==> m.translator.enable_encoder == custom.translator.enable_encoder
            &&& custom.translator.enable_encoder is None ==> m.translator.enable_encoder == match base {
                Some(b) => b.translator.enable_encoder,
                None => None,
            }
            &&& custom.translator.encode_commit_history is Some ==> m.translator.encode_commit_history == custom.translator.encode_commit_history
            &&& custom.translator.encode_commit_history is None ==> m.translator.encode_commit_history == match base {
                Some(b) => b.translator.encode_commit_history,
                None => None,
            }
            &&& custom.translator.max_phrase_length is Some ==> m.translator.max_phrase_length == custom.translator.max_phrase_length
            &&& custom.translator.max_phrase_length is None ==> m.translator.max_phrase_length == match base {
                Some(b) => b.translator.max_phrase_length,
                None => None,
            }
            &&& custom.reverse_lookup.prefix is Some ==> m.reverse_lookup.prefix == custom.reverse_lookup.prefix
            &&& custom.reverse_lookup.prefix is None ==> m.reverse_lookup.prefix == match base {
                Some(b) => b.reverse_lookup.prefix,
                None => None,
            }
            &&& custom.reverse_lookup.suffix is Some ==> m.reverse_lookup.suffix == custom.reverse_lookup.suffix
            &&& custom.reverse_lookup.suffix is None ==> m.reverse_lookup.suffix == match base {
                Some(b) => b.reverse_lookup.suffix,
                None => None,
            }
            &&& m.tradition == custom.tradition
        }),
        base matches Some(b) ==> spec_merge_configs(base, None) == b,
{
}

/// A setting key as written in a patch: every '/' replaced by '_'.
pub open spec fn flat_key(key: Seq<char>) -> Seq<char> {
    key.map_values(|c: char| if c == '/' {
        '_'
    } else {
        c
    })
}

/// The lines of a new patch file.
pub open spec fn default_patch_lines() -> Seq<Seq<char>> {
    seq![
        "customization:"@,
        "  distribution_code_name: Xime"@,
        "  distribution_version: 1.0"@,
        ""@,
        "patch:"@
    ]
}

/// Index of the first line that reads "patch:" once trimmed.
pub open spec fn patch_line(ls: Seq<Seq<char>>) -> Option<nat>
    decreases ls.len(),
{
    if ls.len() == 0 {
        None
    } else if trim(ls[0], CharClass::Ws) == "patch:"@ {
        Some(0)
    } else {
        match patch_line(ls.drop_first()) {
            Some(i) => Some(i + 1),
            None => None,
        }
    }
}

/// Index of the first line that starts with `prefix`.
pub open spec fn prefixed_line(ls: Seq<Seq<char>>, prefix: Seq<char>) -> Option<nat>
    decreases ls.len(),
{
    if ls.len() == 0 {
        None
    } else if prefix.is_prefix_of(ls[0]) {
        Some(0)
    } else {
        match prefixed_line(ls.drop_first(), prefix) {
            Some(i) => Some(i + 1),
            None => None,
        }
    }
}

/// The lines with `new_line` written under "patch:": it replaces the first
/// line after "patch:" that starts with `prefix`, or is inserted right
/// after "patch:". Without a "patch:" line nothing changes.
pub open spec fn patched_lines(ls: Seq<Seq<char>>, prefix: Seq<char>, new_line: Seq<char>) -> Seq<Seq<char>> {
    match patch_line(ls) {
        None => ls,
        Some(p) => match prefixed_line(ls.skip(p + 1int), prefix) {
            Some(e) => ls.update((p + 1 + e) as int, new_line),
            None => ls.insert((p + 1) as int, new_line),
        },
    }
}

/// The patch file after writing a setting: the existing file's lines (a
/// new file's when there is none), patched, joined by '\n', with a final '\n'.
pub open spec fn patched_text(existing: Option<Seq<char>>, prefix: Seq<char>, new_line: Seq<char>) -> Seq<char> {
    let ls = match existing {
        Some(c) => lines(c),
        None => default_patch_lines(),
    };
    join(patched_lines(ls, prefix, new_line), "\n"@) + "\n"@
}

pub proof fn lemma_patch_line_found(ls: Seq<Seq<char>>, k: int)
    requires
        0 <= k < ls.len(),
        trim(ls[k], CharClass::Ws) == "patch:"@,
        forall|j: int| 0 <= j < k ==> trim(#[trigger] ls[j], CharClass::Ws) != "patch:"@,
    ensures
        patch_line(ls) == Some(k as nat),
    decreases k,
{
    if k > 0 {
        assert forall|j: int| 0 <= j < k - 1 implies trim(#[trigger] ls.drop_first()[j], CharClass::Ws)
            != "patch:"@ by {
            assert(ls.drop_first()[j] == ls[j + 1]);
        }
        lemma_patch_line_found(ls.drop_first(), k - 1);
    }
}

proof fn lemma_patch_line_none(ls: Seq<Seq<char>>)
    requires
        forall|j: int| 0 <= j < ls.len() ==> trim(#[trigger] ls[j], CharClass::Ws) != "patch:"@,
    ensures
        patch_line(ls) is None,
    decreases ls.len(),
{
    if ls.len() > 0 {
        assert forall|j: int| 0 <= j < ls.len() - 1 implies trim(#[trigger] ls.drop_first()[j], CharClass::Ws)
            != "patch:"@ by {
            assert(ls.drop_first()[j] == ls[j + 1]);
        }
        lemma_patch_line_none(ls.drop_first());
    }
}

pub proof fn lemma_prefixed_found(ls: Seq<Seq<char>>, prefix: Seq<char>, k: int)
    requires
        0 <= k < ls.len(),
        prefix.is_prefix_of(ls[k]),
        forall|j: int| 0 <= j < k ==> !prefix.is_prefix_of(#[trigger] ls[j]),
    ensures
        prefixed_line(ls, prefix) == Some(k as nat),
    decreases k,
{
    if k > 0 {
        assert forall|j: int| 0 <= j < k - 1 implies !prefix.is_prefix_of(#[trigger] ls.drop_first()[j]) by {
            assert(ls.drop_first()[j] == ls[j + 1]);
        }
        lemma_prefixed_found(ls.drop_first(), prefix, k - 1);
    }
}

proof fn lemma_prefixed_none(ls: Seq<Seq<char>>, prefix: Seq<char>)
    requires
        forall|j: int| 0 <= j < ls.len() ==> !prefix.is_prefix_of(#[trigger] ls[j]),
    ensures
        prefixed_line(ls, prefix) is None,
    decreases ls.len(),
{
    if ls.len() > 0 {
        assert forall|j: int| 0 <= j < ls.len() - 1 implies !prefix.is_prefix_of(#[trigger] ls.drop_first()[j]) by {
            assert(ls.drop_first()[j] == ls[j + 1]);
        }
        lemma_prefixed_none(ls.drop_first(), prefix);
    }
}

/// Whether `v` reads "patch:" once trimmed of white space.
fn is_patch_line(v: &Vec<char>) -> (b: bool)
    ensures
        b == (trim(v@, CharClass::Ws) == "patch:"@),
{
    let (a, e) = crate::text::trim_window(v.as_slice(), 0, v.len(), CharClass::Ws);
    assert(v@.subrange(0, v@.len() as int) =~= v@);
    let target = chars_of("patch:");
    crate::text::chars_equal(v.as_slice(), a, e, target.as_slice())
}

/// Whether `v` starts with `prefix`.
pub fn starts_with(v: &[char], prefix: &[char]) -> (b: bool)
    ensures
        b == prefix@.is_prefix_of(v@),
{
    if prefix.len() > v.len() {
        return false;
    }
    let mut i: usize = 0;
    while i < prefix.len()
        invariant
            i <= prefix@.len() <= v@.len(),
            forall|j: int| 0 <= j < i ==> prefix@[j] == v@[j],
        decreases prefix.len() - i,
    {
        if prefix[i] != v[i] {
            return false;
        }
        i = i + 1;
    }
    true
}

fn lines_of(s: &str) -> (r: Vec<Vec<char>>)
    ensures
        r@.map_values(|l: Vec<char>| l@) == lines(s@),
{
    let r = split_lines(s);
    assert(r@.map_values(|l: Vec<char>| l@) =~= lines(s@));
    r
}

fn default_lines() -> (r: Vec<Vec<char>>)
    ensures
        r@.map_values(|l: Vec<char>| l@) == default_patch_lines(),
{
    let mut r: Vec<Vec<char>> = Vec::new();
    r.push(chars_of("customization:"));
    r.push(chars_of("  distribution_code_name: Xime"));
    r.push(chars_of("  distribution_version: 1.0"));
    r.push(chars_of(""));
    r.push(chars_of("patch:"));
    assert(r@.map_values(|l: Vec<char>| l@) =~= default_patch_lines());
    r
}

/// The text of a patch file after writing `new_line` in place of the line
/// starting with `prefix` (or right after "patch:"); `existing` is the
/// current file, `None` when there is none or it cannot be read.
pub fn patch_text(existing: Option<&str>, prefix: &Vec<char>, new_line: &Vec<char>) -> (r: String)
    ensures
        r@ == patched_text(
            match existing {
                Some(e) => Some(e@),
                None => None,
            },
            prefix@,
            new_line@,
        ),
{
    let mut ls = match existing {
        Some(e) => lines_of(e),
        None => default_lines(),
    };
    let ghost orig = ls@.map_values(|l: Vec<char>| l@);
    let mut p: usize = 0;
    while p < ls.len() && !is_patch_line(&ls[p])
        invariant
            p <= ls@.len(),
            ls@.map_values(|l: Vec<char>| l@) == orig,
            forall|j: int| 0 <= j < p ==> trim(#[trigger] orig[j], CharClass::Ws) != "patch:"@,
        decreases ls.len() - p,
    {
        p = p + 1;
    }
    if p < ls.len() {
        proof {
            lemma_patch_line_found(orig, p as int);
        }
        let mut e: usize = p + 1;
        while e < ls.len() && !starts_with(ls[e].as_slice(), prefix.as_slice())
            invariant
                p < e <= ls@.len(),
                ls@.map_values(|l: Vec<char>| l@) == orig,
                forall|j: int| p < j < e ==> !prefix@.is_prefix_of(#[trigger] orig[j]),
            decreases ls.len() - e,
        {
            e = e + 1;
        }
        let ghost tail = orig.skip(p as int + 1);
        if e < ls.len() {
            proof {
                assert forall|j: int| 0 <= j < e - p - 1 implies !prefix@.is_prefix_of(#[trigger] tail[j]) by {
                    assert(tail[j] == orig[j + p + 1]);
                }
                lemma_prefixed_found(tail, prefix@, (e - p - 1) as int);
            }
            ls.set(e, new_line.clone());
            assert(ls@.map_values(|l: Vec<char>| l@) =~= orig.update(e as int, new_line@));
        } else {
            proof {
                assert forall|j: int| 0 <= j < tail.len() implies !prefix@.is_prefix_of(#[trigger] tail[j]) by {
                    assert(tail[j] == orig[j + p + 1]);
                }
                lemma_prefixed_none(tail, prefix@);
            }
            ls.insert(p + 1, new_line.clone());
            assert(ls@.map_values(|l: Vec<char>| l@) =~= orig.insert(p as int + 1, new_line@));
        }
    } else {
        proof {
            lemma_patch_line_none(orig);
        }
    }
    let mut out = join_chars(&ls, "\n");
    let ghost joined = out@;
    out.push('\n');
    proof {
        crate::text::reveal_newline();
        assert(out@ =~= joined + "\n"@);
    }
    string_of(out.as_slice())
}

} // verus!
