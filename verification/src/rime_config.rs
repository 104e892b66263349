//! The input method's own settings (`xime.yaml`, overridden by
//! `xime.custom.yaml`) and per-schema patch files: reading a setting by its
//! '/'-separated key path, and the new text of a patch file after writing one.

use vstd::prelude::*;

use crate::text::{
    chars_of, owned, split_char, split, parse_i32_text, parse_i32, parse_bool_text,
    parse_bool, i32_text, int_text, bool_str, bool_text,
};
use crate::schema_config::{flat_key, patch_text, patched_text};
pub use crate::yaml::{get_yaml_value, yaml_value};

verus! {

/// What reading a file gave.
pub enum FileContent {
    /// There is no such file.
    Missing,
    /// The file exists but could not be read as text.
    Unreadable,
    /// The file's text.
    Text(String),
}


/// The shared Rime data directory.
pub fn get_shared_data_dir() -> (r: String)
    ensures
        r@ == "/usr/share/rime-data"@,
{
    owned("/usr/share/rime-data")
}

/// The input method's own Rime data directory.
pub fn get_xime_data_dir() -> (r: String)
    ensures
        r@ == "/usr/share/xime/rime-data"@,
{
    owned("/usr/share/xime/rime-data")
}

/// The `default.custom.yaml` written when there is none: it selects the
/// `wubi86_jidian` schema.
pub open spec fn default_custom_yaml() -> Seq<char> {
    "customization:\n  distribution_code_name: Xime\n  distribution_version: 1.0\n\npatch:\n  schema_list:\n    - schema: wubi86_jidian\n"@
}

/// The `xime.yaml` written when there is none: the default style.
pub open spec fn default_xime_yaml() -> Seq<char> {
    "config_version: \"1.0\"\nstyle:\n  font_size: 14.0\n  candidate_count: 5\n  corner_radius: 8.0\n  color_scheme: lavender_purple\n"@
}

/// The files of the user's Rime directory to create, by name and text:
/// `default.custom.yaml` when it is missing, then `xime.yaml` when it is missing.
pub open spec fn seed_files(has_default_custom: bool, has_xime_yaml: bool) -> Seq<(Seq<char>, Seq<char>)> {
    (if has_default_custom {
        Seq::empty()
    } else {
        seq![("default.custom.yaml"@, default_custom_yaml())]
    }) + (if has_xime_yaml {
        Seq::empty()
    } else {
        seq![("xime.yaml"@, default_xime_yaml())]
    })
}

/// The configuration files to create in the user's Rime directory, given
/// which of them exist already; each is a file name and its text.
pub fn ensure_config_files(has_default_custom: bool, has_xime_yaml: bool) -> (r: Vec<(String, String)>)
    ensures
        r@.map_values(|f: (String, String)| (f.0@, f.1@)) == seed_files(has_default_custom, has_xime_yaml),
{
    let mut r: Vec<(String, String)> = Vec::new();
    if !has_default_custom {
        r.push((
            owned("default.custom.yaml"),
            owned("customization:\n  distribution_code_name: Xime\n  distribution_version: 1.0\n\npatch:\n  schema_list:\n    - schema: wubi86_jidian\n"),
        ));
    }
    if !has_xime_yaml {
        r.push((
            owned("xime.yaml"),
            owned("config_version: \"1.0\"\nstyle:\n  font_size: 14.0\n  candidate_count: 5\n  corner_radius: 8.0\n  color_scheme: lavender_purple\n"),
        ));
    }
    proof {
        assert(r@.map_values(|f: (String, String)| (f.0@, f.1@)) =~= seed_files(has_default_custom, has_xime_yaml));
    }
    r
}

/// What looking a key up in one file gave.
pub enum Lookup {
    /// The file does not exist.
    NoFile,
    /// The file exists and could not be read.
    Unreadable,
    /// The file was read; the value found, if any.
    Read(Option<String>),
}

/// The view of a lookup in `file`.
pub open spec fn lookup_of(file: FileContent, key: Seq<char>) -> Option<Option<Seq<char>>> {
    match file {
        FileContent::Missing => Some(None),
        FileContent::Unreadable => None,
        FileContent::Text(t) => Some(yaml_value(t@, key)),
    }
}

/// The setting at `key`: the custom file wins when it holds the key; an
/// unreadable custom file gives nothing; else the base file decides.
pub open spec fn config_value(custom: FileContent, base: FileContent, key: Seq<char>) -> Option<
    Seq<char>,
> {
    match custom {
        FileContent::Unreadable => None,
        FileContent::Text(c) if yaml_value(c@, key) is Some => yaml_value(c@, key),
        _ => match base {
            FileContent::Text(b) => yaml_value(b@, key),
            _ => None,
        },
    }
}

/// The view of a lookup result.
pub open spec fn lookup_view(l: Lookup) -> Option<Option<Seq<char>>> {
    match l {
        Lookup::NoFile => Some(None),
        Lookup::Unreadable => None,
        Lookup::Read(v) => Some(
            match v {
                Some(s) => Some(s@),
                None => None,
            },
        ),
    }
}

/// Looks `key` up in one file.
pub fn lookup_in(file: &FileContent, key: &str) -> (r: Lookup)
    ensures
        lookup_view(r) == lookup_of(*file, key@),
        (r is NoFile) == (*file is Missing),
{
    match file {
        FileContent::Missing => Lookup::NoFile,
        FileContent::Unreadable => Lookup::Unreadable,
        FileContent::Text(t) => Lookup::Read(get_yaml_value(t.as_str(), key)),
    }
}

/// Combines what the custom and the base file gave: a value in the custom
/// file wins; an unreadable custom file gives nothing; otherwise the base
/// file's value, when it was read.
pub fn merge_lookups(custom: Lookup, base: Lookup) -> (r: Option<String>)
    ensures
        (match r {
            Some(v) => Some(v@),
            None => None,
        }) == (match custom {
            Lookup::Unreadable => None,
            Lookup::Read(Some(v)) => Some(v@),
            _ => match base {
                Lookup::Read(b) => match b {
                    Some(v) => Some(v@),
                    None => None,
                },
                _ => None,
            },
        }),
{
    match custom {
        Lookup::Unreadable => None,
        Lookup::Read(Some(v)) => Some(v),
        _ => match base {
            Lookup::Read(b) => b,
            _ => None,
        },
    }
}

/// The view of an optional string.
pub open spec fn opt_view(o: Option<String>) -> Option<Seq<char>> {
    match o {
        Some(s) => Some(s@),
        None => None,
    }
}

/// The text of `s` with `prefix` in front.
fn prefixed(prefix: &str, s: &Vec<char>) -> (r: Vec<char>)
    ensures
        r@ == prefix@ + s@,
{
    let mut r = chars_of(prefix);
    let ghost start = r@;
    let mut i: usize = 0;
    while i < s.len()
        invariant
            i <= s@.len(),
            r@ == start + s@.take(i as int),
            start == prefix@,
        decreases s.len() - i,
    {
        r.push(s[i]);
        i = i + 1;
        assert(r@ =~= start + s@.take(i as int));
    }
    assert(s@.take(i as int) =~= s@);
    r
}

/// `a` followed by the characters of `b`.
fn appended(a: &Vec<char>, b: &str) -> (r: Vec<char>)
    ensures
        r@ == a@ + b@,
{
    let bv = chars_of(b);
    let mut r = a.clone();
    let mut i: usize = 0;
    while i < bv.len()
        invariant
            i <= bv@.len(),
            bv@ == b@,
            r@ == a@ + bv@.take(i as int),
        decreases bv.len() - i,
    {
        r.push(bv[i]);
        i = i + 1;
        assert(r@ =~= a@ + bv@.take(i as int));
    }
    assert(bv@.take(i as int) =~= bv@);
    r
}

/// The patch key of `key`: every '/' replaced by '_'.
pub fn flat_key_chars(key: &str) -> (r: Vec<char>)
    ensures
        r@ == flat_key(key@),
{
    let k = chars_of(key);
    let mut r: Vec<char> = Vec::new();
    let mut i: usize = 0;
    while i < k.len()
        invariant
            i <= k@.len(),
            k@ == key@,
            r@ == flat_key(k@.take(i as int)),
        decreases k.len() - i,
    {
        let c = k[i];
        r.push(if c == '/' {
            '_'
        } else {
            c
        });
        i = i + 1;
        assert(r@ =~= flat_key(k@.take(i as int)));
    }
    assert(k@.take(i as int) =~= k@);
    r
}

/// The new text of a patch file after setting `key` to `value`, with the
/// setting's line indented by `indent`: the line `indent + key: value`
/// replaces the first line after "patch:" that starts with `indent + key:`,
/// or is inserted right after "patch:".
pub open spec fn set_in_patch(
    existing: Option<Seq<char>>,
    indent: Seq<char>,
    key: Seq<char>,
    value: Seq<char>,
) -> Seq<char> {
    patched_text(
        existing,
        indent + flat_key(key) + ":"@,
        indent + flat_key(key) + ": "@ + value,
    )
}

/// The view of an optional `&str`.
pub open spec fn opt_str_view(o: Option<&str>) -> Option<Seq<char>> {
    match o {
        Some(s) => Some(s@),
        None => None,
    }
}

/// The patch file after writing `key: value` under "patch:" with the given indentation.
pub fn write_setting(existing: Option<&str>, indent: &str, key: &str, value: &str) -> (r: String)
    ensures
        r@ == set_in_patch(opt_str_view(existing), indent@, key@, value@),
{
    let fk = prefixed(indent, &flat_key_chars(key));
    let prefix = appended(&fk, ":");
    let line = appended(&appended(&fk, ": "), value);
    patch_text(existing, &prefix, &line)
}

/// The input method's settings, kept in `xime.yaml` and overridden by
/// `xime.custom.yaml` in the user's Rime directory.
pub struct RimeConfigManager {
    /// The user's Rime data directory.
    pub user_dir: String,
}

impl RimeConfigManager {
    /// A manager for the settings in `user_dir`.
    pub fn new(user_dir: &str) -> (r: Result<Self, String>)
        ensures
            r matches Ok(m) && m.user_dir@ == user_dir@,
    {
        Ok(RimeConfigManager { user_dir: owned(user_dir) })
    }

    /// The setting at `key` as text: `custom` is what reading
    /// `xime.custom.yaml` gave and `base` what reading `xime.yaml` gave.
    fn get_value(&self, custom: &FileContent, base: &FileContent, key: &str) -> (r: Option<String>)
        ensures
            opt_view(r) == config_value(*custom, *base, key@),
    {
        let c = lookup_in(custom, key);
        let b = lookup_in(base, key);
        merge_lookups(c, b)
    }

    /// The text setting at `key`, given the custom and the base file.
    pub fn get_string(&self, custom: &FileContent, base: &FileContent, key: &str) -> (r: Option<
        String,
    >)
        ensures
            opt_view(r) == config_value(*custom, *base, key@),
    {
        self.get_value(custom, base, key)
    }

    /// The integer setting at `key`: the text setting, parsed as an `i32`.
    pub fn get_int(&self, custom: &FileContent, base: &FileContent, key: &str) -> (r: Option<i32>)
        ensures
            r == (match config_value(*custom, *base, key@) {
                Some(v) => parse_i32(v),
                None => None,
            }),
    {
        match self.get_value(custom, base, key) {
            Some(v) => parse_i32_text(v.as_str()),
            None => None,
        }
    }

    /// The boolean setting at `key`: the text setting, parsed as a `bool`.
    pub fn get_bool(&self, custom: &FileContent, base: &FileContent, key: &str) -> (r: Option<bool>)
        ensures
            r == (match config_value(*custom, *base, key@) {
                Some(v) => parse_bool(v),
                None => None,
            }),
    {
        match self.get_value(custom, base, key) {
            Some(v) => parse_bool_text(v.as_str()),
            None => None,
        }
    }

    /// The new text of `xime.custom.yaml` after writing `key: value` under
    /// "patch:", indented by four spaces.
    fn set_value(&self, existing: Option<&str>, key: &str, value: &str) -> (r: String)
        ensures
            r@ == set_in_patch(opt_str_view(existing), "    "@, key@, value@),
    {
        write_setting(existing, "    ", key, value)
    }

    /// The new text of `xime.custom.yaml` after setting `key` to the text `value`;
    /// `existing` is its current text, `None` when it is missing or unreadable.
    pub fn set_string(&self, existing: Option<&str>, key: &str, value: &str) -> (r: String)
        ensures
            r@ == set_in_patch(opt_str_view(existing), "    "@, key@, value@),
    {
        self.set_value(existing, key, value)
    }

    /// The new text of `xime.custom.yaml` after setting `key` to `value`.
    pub fn set_int(&self, existing: Option<&str>, key: &str, value: i32) -> (r: String)
        ensures
            r@ == set_in_patch(opt_str_view(existing), "    "@, key@, int_text(value as int)),
    {
        let v = i32_text(value);
        self.set_value(existing, key, v.as_str())
    }

    /// The new text of `xime.custom.yaml` after setting `key` to `value`.
    pub fn set_bool(&self, existing: Option<&str>, key: &str, value: bool) -> (r: String)
        ensures
            r@ == set_in_patch(opt_str_view(existing), "    "@, key@, bool_text(value)),
    {
        let v = bool_str(value);
        self.set_value(existing, key, v.as_str())
    }

    /// Settings are written as they are set; nothing is left to save.
    pub fn save(&self) -> (r: Result<(), String>)
        ensures
            r is Ok,
    {
        Ok(())
    }
}

/// The settings of one schema, patched through `<schema>.custom.yaml`.
pub struct SchemaConfigManager {
    /// The user's Rime data directory.
    pub user_dir: String,
    /// The schema's id.
    pub schema_id: String,
}

impl SchemaConfigManager {
    /// A manager for the patch of `schema_id` in `user_dir`.
    pub fn new(user_dir: &str, schema_id: &str) -> (r: Result<Self, String>)
        ensures
            r matches Ok(m) && m.user_dir@ == user_dir@ && m.schema_id@ == schema_id@,
    {
        Ok(SchemaConfigManager { user_dir: owned(user_dir), schema_id: owned(schema_id) })
    }

    /// The name of the schema's patch file: `<schema>.custom.yaml`.
    pub fn custom_file_name(&self) -> (r: String)
        ensures
            r@ == self.schema_id@ + ".custom.yaml"@,
    {
        crate::text::concat(self.schema_id.as_str(), ".custom.yaml")
    }

    /// The name of the schema's own file: `<schema>.schema.yaml`.
    pub fn schema_file_name(&self) -> (r: String)
        ensures
            r@ == self.schema_id@ + ".schema.yaml"@,
    {
        crate::text::concat(self.schema_id.as_str(), ".schema.yaml")
    }

    /// The new text of the patch file after writing `key: value` under
    /// "patch:", indented by two spaces.
    fn update_custom_yaml(&self, existing: Option<&str>, key: &str, value: &str) -> (r: String)
        ensures
            r@ == set_in_patch(opt_str_view(existing), "  "@, key@, value@),
    {
        write_setting(existing, "  ", key, value)
    }

    /// The new text of the patch file after setting `key` to the text `value`.
    pub fn set_string(&self, existing: Option<&str>, key: &str, value: &str) -> (r: String)
        ensures
            r@ == set_in_patch(opt_str_view(existing), "  "@, key@, value@),
    {
        self.update_custom_yaml(existing, key, value)
    }

    /// The new text of the patch file after setting `key` to `value`.
    pub fn set_int(&self, existing: Option<&str>, key: &str, value: i32) -> (r: String)
        ensures
            r@ == set_in_patch(opt_str_view(existing), "  "@, key@, int_text(value as int)),
    {
        let v = i32_text(value);
        self.update_custom_yaml(existing, key, v.as_str())
    }

    /// The new text of the patch file after setting `key` to `value`.
    pub fn set_bool(&self, existing: Option<&str>, key: &str, value: bool) -> (r: String)
        ensures
            r@ == set_in_patch(opt_str_view(existing), "  "@, key@, bool_text(value)),
    {
        let v = bool_str(value);
        self.update_custom_yaml(existing, key, v.as_str())
    }

    /// Settings are written as they are set; nothing is left to save.
    pub fn save(&self) -> (r: Result<(), String>)
        ensures
            r is Ok,
    {
        Ok(())
    }
}

} // verus!

verus! {

/// Whether `s` holds no line break.
pub open spec fn one_line(s: Seq<char>) -> bool {
    forall|i: int| 0 <= i < s.len() ==> s[i] != '\n'
}

/// Setting a key twice leaves the patch file as setting it once to the
/// second value: the second write finds and replaces the line of the first.
/// This holds when the indentation, key and first value are on one line and
/// no line of the file before ends with '\r'.
pub proof fn lemma_set_twice(
    existing: Option<Seq<char>>,
    indent: Seq<char>,
    key: Seq<char>,
    v1: Seq<char>,
    v2: Seq<char>,
)
    requires
        one_line(indent),
        one_line(key),
        one_line(v1),
        crate::patch_laws::no_trailing_cr(existing),
    ensures
        set_in_patch(Some(set_in_patch(existing, indent, key, v1)), indent, key, v2) == set_in_patch(
            existing,
            indent,
            key,
            v2,
        ),
{
    reveal_strlit(":");
    reveal_strlit(": ");
    let fk = flat_key(key);
    let prefix = indent + fk + ":"@;
    let l1 = indent + fk + ": "@ + v1;
    let s1 = crate::text::strip_cr(l1);
    assert(s1.len() >= prefix.len());
    assert forall|i: int| 0 <= i < prefix.len() implies s1[i] == prefix[i] by {
        assert(s1[i] == l1[i]);
    }
    assert(s1.subrange(0, prefix.len() as int) =~= prefix);
    assert forall|i: int| 0 <= i < l1.len() implies l1[i] != '\n' by {
        if i < indent.len() {
        } else if i < indent.len() + fk.len() {
            assert(l1[i] == fk[i - indent.len()]);
            assert(key[i - indent.len()] != '\n');
        } else if i < indent.len() + fk.len() + 2 {
        } else {
            assert(l1[i] == v1[i - indent.len() - fk.len() - 2]);
        }
    }
    crate::patch_laws::lemma_patched_text_twice(existing, prefix, l1, indent + fk + ": "@ + v2);
}

} // verus!
