//! The vocabulary of the predictive-text model: one token per character,
//! loaded from a JSON object of token ids, with the special tokens that
//! predictions leave out.

use vstd::prelude::*;
use vstd::hash_map::StringHashMap;
use std::collections::HashMap;

use crate::text::{chars_of, owned, concat, string_of};

verus! {

broadcast use vstd::std_specs::hash::group_hash_axioms;

/// Why the predictor could not be set up or run.
#[derive(Debug, Clone)]
pub enum PredictError {
    VocabLoad(String),
    ModelLoad(String),
    Ort(String),
    ModelNotFound(String),
}

/// The text a prediction error reads as.
pub open spec fn error_text(e: PredictError) -> Seq<char> {
    match e {
        PredictError::VocabLoad(m) => "Failed to load vocab: "@ + m@,
        PredictError::ModelLoad(m) => "Failed to load model: "@ + m@,
        PredictError::Ort(m) => "ORT error: "@ + m@,
        PredictError::ModelNotFound(m) => "Model not found: "@ + m@,
    }
}

impl PredictError {
    /// The text the error reads as.
    pub fn message(&self) -> (r: String)
        ensures
            r@ == error_text(*self),
    {
        match self {
            PredictError::VocabLoad(m) => concat("Failed to load vocab: ", m.as_str()),
            PredictError::ModelLoad(m) => concat("Failed to load model: ", m.as_str()),
            PredictError::Ort(m) => concat("ORT error: ", m.as_str()),
            PredictError::ModelNotFound(m) => concat("Model not found: ", m.as_str()),
        }
    }
}

/// What `serde_json` reads from `content` as an object of integer token
/// ids: the tokens with their ids, or the text of the error it reports.
pub uninterp spec fn json_token_ids(content: Seq<char>) -> Result<Map<Seq<char>, i64>, Seq<char>>;

/// Whether `entries` lists the pairs of `m` once each, in some order.
pub open spec fn lists_map(entries: Seq<(String, i64)>, m: Map<Seq<char>, i64>) -> bool {
    &&& forall|i: int, j: int|
        0 <= i < j < entries.len() ==> (#[trigger] entries[i]).0@ != (#[trigger] entries[j]).0@
    &&& forall|i: int|
        0 <= i < entries.len() ==> m.contains_key((#[trigger] entries[i]).0@) && m[entries[i].0@]
            == entries[i].1
    &&& forall|k: Seq<char>|
        #[trigger] m.contains_key(k) ==> exists|i: int| 0 <= i < entries.len() && (#[trigger] entries[i]).0@ == k
}

/// Parses `content` with `serde_json::from_str` into a map from token to id
/// and lists its entries in the map's iteration order (which the contract
/// leaves open); on failure, the error's text.
#[verifier::external_body]
fn parse_token_ids(content: &str) -> (r: Result<Vec<(String, i64)>, String>)
    ensures
        match r {
            Ok(v) => json_token_ids(content@) matches Ok(m) && lists_map(v@, m),
            Err(e) => json_token_ids(content@) == Err::<Map<Seq<char>, i64>, Seq<char>>(e@),
        },
{
    match serde_json::from_str::<HashMap<String, i64>>(content) {
        Ok(m) => Ok(m.into_iter().collect()),
        Err(e) => Err(e.to_string()),
    }
}

/// The id of `token` in `tokens`, or `default`.
pub open spec fn id_or(tokens: Map<Seq<char>, i64>, token: Seq<char>, default: i64) -> i64 {
    if tokens.contains_key(token) {
        tokens[token]
    } else {
        default
    }
}

/// The model's vocabulary: each token's id, each id's token, and the ids
/// of the special tokens.
pub struct Vocab {
    tokens: StringHashMap<i64>,
    ids: HashMap<i64, String>,
    bos_id: i64,
    eos_id: i64,
    unk_id: i64,
    pad_id: i64,
}

impl Vocab {
    /// Every id maps back to a token with that id, and every token's id
    /// maps to some token.
    #[verifier::type_invariant]
    closed spec fn inverse(self) -> bool {
        &&& forall|id: i64| #[trigger]
            self.ids@.contains_key(id) ==> self.tokens@.contains_key(self.ids@[id]@)
                && self.tokens@[self.ids@[id]@] == id
        &&& forall|k: Seq<char>| #[trigger]
            self.tokens@.contains_key(k) ==> self.ids@.contains_key(self.tokens@[k])
    }

    /// The tokens and their ids.
    pub closed spec fn token_ids(self) -> Map<Seq<char>, i64> {
        self.tokens@
    }

    /// The token that the id decodes to, if any.
    pub closed spec fn token_of(self, id: i64) -> Option<Seq<char>> {
        if self.ids@.contains_key(id) {
            Some(self.ids@[id]@)
        } else {
            None
        }
    }

    /// The id of the start-of-text token.
    pub closed spec fn spec_bos(self) -> i64 {
        self.bos_id
    }

    /// The id of the end-of-text token.
    pub closed spec fn spec_eos(self) -> i64 {
        self.eos_id
    }

    /// The id of the unknown-token token.
    pub closed spec fn spec_unk(self) -> i64 {
        self.unk_id
    }

    /// The id of the padding token.
    pub closed spec fn spec_pad(self) -> i64 {
        self.pad_id
    }

    /// Every id maps back to a token with that id, and every token's id
    /// maps to some token.
    pub closed spec fn consistent(self) -> bool {
        self.inverse()
    }

    /// Whether no two tokens share an id.
    pub open spec fn ids_unique(self) -> bool {
        forall|a: Seq<char>, b: Seq<char>|
            #[trigger] self.token_ids().contains_key(a) && #[trigger] self.token_ids().contains_key(b)
                && self.token_ids()[a] == self.token_ids()[b] ==> a == b
    }

    /// Decoding the id of a character that is a token gives the character
    /// back, when no two tokens share an id.
    pub proof fn lemma_encode_decode(self, text: Seq<char>, i: int)
        requires
            self.consistent(),
            self.ids_unique(),
            0 <= i < text.len(),
            self.token_ids().contains_key(seq![text[i]]),
        ensures
            self.token_of(self.spec_encode(text)[i + 1]) == Some(seq![text[i]]),
    {
        let id = self.tokens@[seq![text[i]]];
        assert(self.spec_encode(text)[i + 1] == id);
        assert(self.ids@.contains_key(id));
        let t = self.ids@[id]@;
        assert(self.tokens@.contains_key(t) && self.tokens@[t] == id);
    }

    /// Builds the vocabulary from a JSON object of token ids; the special
    /// tokens "[BOS]", "[EOS]", "[UNK]" and "[PAD]" default to 1, 2, 3 and 0.
    pub fn from_json(content: &str) -> (r: Result<Vocab, PredictError>)
        ensures
            match json_token_ids(content@) {
                Ok(m) => r matches Ok(v) && v.consistent() && v.token_ids() == m && v.spec_bos() == id_or(
                    m,
                    "[BOS]"@,
                    1,
                ) && v.spec_eos() == id_or(m, "[EOS]"@, 2) && v.spec_unk() == id_or(m, "[UNK]"@, 3)
                    && v.spec_pad() == id_or(m, "[PAD]"@, 0),
                Err(e) => r matches Err(PredictError::VocabLoad(msg)) && msg@ == e,
            },
    {
        let entries = match parse_token_ids(content) {
            Ok(v) => v,
            Err(e) => return Err(PredictError::VocabLoad(e)),
        };
        let ghost m = json_token_ids(content@)->Ok_0;
        let mut tokens: StringHashMap<i64> = StringHashMap::new();
        let mut ids: HashMap<i64, String> = HashMap::new();
        let mut i: usize = 0;
        while i < entries.len()
            invariant
                i <= entries@.len(),
                lists_map(entries@, m),
                forall|k: Seq<char>|
                    #[trigger] tokens@.contains_key(k) <==> exists|j: int|
                        0 <= j < i && (#[trigger] entries@[j]).0@ == k,
                forall|k: Seq<char>| #[trigger] tokens@.contains_key(k) ==> tokens@[k] == m[k],
                forall|id: i64| #[trigger]
                    ids@.contains_key(id) ==> tokens@.contains_key(ids@[id]@) && tokens@[ids@[id]@]
                        == id,
                forall|k: Seq<char>| #[trigger] tokens@.contains_key(k) ==> ids@.contains_key(tokens@[k]),
            decreases entries.len() - i,
        {
            let (k, v) = (&entries[i].0, entries[i].1);
            let ghost e = entries@[i as int];
            assert(m.contains_key(e.0@) && m[e.0@] == e.1);
            proof {
                assert forall|j: int| 0 <= j < i implies (#[trigger] entries@[j]).0@ != k@ by {
                    assert(entries@[j].0@ != entries@[i as int].0@);
                }
            }
            let ghost old_tokens = tokens@;
            let ghost old_ids = ids@;
            tokens.insert(owned(k.as_str()), v);
            ids.insert(v, owned(k.as_str()));
            proof {
                assert forall|id: i64| #[trigger] ids@.contains_key(id) implies tokens@.contains_key(
                    ids@[id]@,
                ) && tokens@[ids@[id]@] == id by {
                    if id != v {
                        assert(old_ids.contains_key(id));
                        let t = old_ids[id]@;
                        assert(old_tokens.contains_key(t));
                        assert(t != k@);
                    }
                }
                assert forall|key: Seq<char>| #[trigger] tokens@.contains_key(key) implies (exists|j: int|
                    0 <= j < i + 1 && (#[trigger] entries@[j]).0@ == key) by {
                    if key != k@ {
                        assert(old_tokens.contains_key(key));
                    } else {
                        assert(entries@[i as int].0@ == key);
                    }
                }
                assert forall|key: Seq<char>| (exists|j: int|
                    0 <= j < i + 1 && (#[trigger] entries@[j]).0@ == key) implies #[trigger] tokens@.contains_key(key) by {
                    let j = choose|j: int| 0 <= j < i + 1 && (#[trigger] entries@[j]).0@ == key;
                    if j < i {
                        assert(old_tokens.contains_key(key));
                    }
                }
                assert forall|key: Seq<char>| #[trigger] tokens@.contains_key(key) implies tokens@[key] == m[key] by {
                    if key != k@ {
                        assert(old_tokens.contains_key(key));
                    }
                }
            }
            i = i + 1;
        }
        proof {
            assert forall|k: Seq<char>| #[trigger] m.contains_key(k) implies tokens@.contains_key(k) by {
                let j = choose|j: int| 0 <= j < entries@.len() && (#[trigger] entries@[j]).0@ == k;
            }
            assert(tokens@ =~= m);
        }
        let bos_id = match tokens.get("[BOS]") {
            Some(x) => *x,
            None => 1,
        };
        let eos_id = match tokens.get("[EOS]") {
            Some(x) => *x,
            None => 2,
        };
        let unk_id = match tokens.get("[UNK]") {
            Some(x) => *x,
            None => 3,
        };
        let pad_id = match tokens.get("[PAD]") {
            Some(x) => *x,
            None => 0,
        };
        let v = Vocab { tokens, ids, bos_id, eos_id, unk_id, pad_id };
        proof {
            use_type_invariant(&v);
        }
        Ok(v)
    }

    /// The id of the start-of-text token.
    pub fn bos_id(&self) -> (r: i64)
        ensures
            r == self.spec_bos(),
    {
        self.bos_id
    }

    /// The id of the end-of-text token.
    pub fn eos_id(&self) -> (r: i64)
        ensures
            r == self.spec_eos(),
    {
        self.eos_id
    }

    /// The id of the unknown-token token.
    pub fn unk_id(&self) -> (r: i64)
        ensures
            r == self.spec_unk(),
    {
        self.unk_id
    }

    /// The id of the padding token.
    pub fn pad_id(&self) -> (r: i64)
        ensures
            r == self.spec_pad(),
    {
        self.pad_id
    }

    /// The ids of `text`: the start token, then each character's id (the
    /// unknown token's for a character that is not a token).
    pub open spec fn spec_encode(self, text: Seq<char>) -> Seq<i64> {
        seq![self.spec_bos()] + Seq::new(
            text.len(),
            |i: int| id_or(self.token_ids(), seq![text[i]], self.spec_unk()),
        )
    }

    /// Encodes `text` into token ids.
    pub fn encode(&self, text: &str) -> (r: Vec<i64>)
        ensures
            r@ == self.spec_encode(text@),
    {
        let cs = chars_of(text);
        let mut out: Vec<i64> = Vec::new();
        out.push(self.bos_id);
        let mut i: usize = 0;
        while i < cs.len()
            invariant
                i <= cs@.len(),
                cs@ == text@,
                out@ == self.spec_encode(text@).take(i + 1),
            decreases cs.len() - i,
        {
            let mut one: Vec<char> = Vec::new();
            one.push(cs[i]);
            let key = string_of(one.as_slice());
            assert(key@ =~= seq![text@[i as int]]);
            let id = match self.tokens.get(key.as_str()) {
                Some(x) => *x,
                None => self.unk_id,
            };
            out.push(id);
            i = i + 1;
            assert(out@ =~= self.spec_encode(text@).take(i + 1));
        }
        assert(self.spec_encode(text@).take(i + 1) =~= self.spec_encode(text@));
        out
    }

    /// The token an id stands for, if any.
    pub fn decode(&self, id: i64) -> (r: Option<&str>)
        ensures
            match r {
                Some(t) => self.token_of(id) == Some(t@) && self.token_ids().contains_key(t@)
                    && self.token_ids()[t@] == id,
                None => self.token_of(id) is None && forall|k: Seq<char>|
                    #[trigger] self.token_ids().contains_key(k) ==> self.token_ids()[k] != id,
            },
    {
        proof {
            use_type_invariant(self);
        }
        match self.ids.get(&id) {
            Some(s) => Some(s.as_str()),
            None => None,
        }
    }

    /// Whether `id` is one of the special tokens (padding, start, end, unknown).
    pub fn is_special(&self, id: i64) -> (r: bool)
        ensures
            r == (id == self.spec_pad() || id == self.spec_bos() || id == self.spec_eos() || id
                == self.spec_unk()),
    {
        id == self.pad_id || id == self.bos_id || id == self.eos_id || id == self.unk_id
    }

    /// The number of tokens.
    pub fn vocab_size(&self) -> (r: usize)
        ensures
            r == self.token_ids().len(),
    {
        self.tokens.len()
    }

    /// The tokens of the `top_k` best-ranked ids, best first, leaving out
    /// special tokens and ids with no token; each with its rank.
    pub fn top_tokens(&self, ranked: &Vec<usize>, top_k: usize) -> (r: Vec<(usize, String)>)
        ensures
            r@.map_values(|p: (usize, String)| (p.0, p.1@)) == self.spec_top(
                ranked@.take(if top_k < ranked@.len() { top_k as int } else { ranked@.len() as int }),
                0,
            ),
    {
        let n = if top_k < ranked.len() {
            top_k
        } else {
            ranked.len()
        };
        let ghost taken = ranked@.take(n as int);
        let mut out: Vec<(usize, String)> = Vec::new();
        let mut i: usize = 0;
        assert(self.spec_top(taken, 0) =~= out@.map_values(|p: (usize, String)| (p.0, p.1@))
            + self.spec_top(taken, 0));
        while i < n
            invariant
                i <= n <= ranked@.len(),
                taken == ranked@.take(n as int),
                self.spec_top(taken, 0) == out@.map_values(|p: (usize, String)| (p.0, p.1@))
                    + self.spec_top(taken, i as int),
            decreases n - i,
        {
            let id = ranked[i] as i64;
            assert(taken[i as int] == ranked@[i as int]);
            let ghost before = out@.map_values(|p: (usize, String)| (p.0, p.1@));
            if !self.is_special(id) {
                match self.decode(id) {
                    Some(t) => {
                        out.push((i, owned(t)));
                        assert(out@.map_values(|p: (usize, String)| (p.0, p.1@)) =~= before.push(
                            (i, t@),
                        ));
                        assert(before + self.spec_top(taken, i as int) =~= before.push((i, t@))
                            + self.spec_top(taken, i + 1));
                    },
                    None => {},
                }
            }
            i = i + 1;
        }
        assert(out@.map_values(|p: (usize, String)| (p.0, p.1@)) + self.spec_top(taken, i as int)
            =~= out@.map_values(|p: (usize, String)| (p.0, p.1@)));
        out
    }

    /// The ranks and tokens from rank `i` on of the ids in `ranked`,
    /// special tokens and ids with no token left out.
    pub open spec fn spec_top(self, ranked: Seq<usize>, i: int) -> Seq<(usize, Seq<char>)>
        decreases ranked.len() - i,
    {
        if i < 0 || i >= ranked.len() {
            Seq::empty()
        } else {
            let id = ranked[i] as i64;
            let special = id == self.spec_pad() || id == self.spec_bos() || id == self.spec_eos()
                || id == self.spec_unk();
            match self.token_of(id) {
                Some(t) if !special => seq![(i as usize, t)] + self.spec_top(ranked, i + 1),
                _ => self.spec_top(ranked, i + 1),
            }
        }
    }
}

/// The model used when none is named.
pub fn model_name_or_default(model_name: Option<&str>) -> (r: String)
    ensures
        r@ == match model_name {
            Some(n) => n@,
            None => "predictive-text-small"@,
        },
{
    match model_name {
        Some(n) => owned(n),
        None => owned("predictive-text-small"),
    }
}

/// A model is usable when its vocabulary, its graph and its weights are
/// all present.
pub fn check_model_exists(has_vocab: bool, has_model: bool, has_weights: bool) -> (r: bool)
    ensures
        r == (has_vocab && has_model && has_weights),
{
    has_vocab && has_model && has_weights
}

} // verus!

verus! {

/// Where the files of the model `name` are downloaded from.
pub open spec fn model_base_url(name: Seq<char>) -> Seq<char> {
    "https://modelscope.cn/models/bikeand/"@ + name + "/resolve/master"@
}

/// The files of a model, each with the URL it is downloaded from: the
/// vocabulary, the graph and the weights.
pub fn model_download_files(model_name: &str) -> (r: Vec<(String, String)>)
    ensures
        r@.len() == 3,
        r@[0].0@ == "vocab.json"@ && r@[0].1@ == model_base_url(model_name@) + "/vocab.json"@,
        r@[1].0@ == "model.onnx"@ && r@[1].1@ == model_base_url(model_name@) + "/model.onnx"@,
        r@[2].0@ == "model.onnx.data"@ && r@[2].1@ == model_base_url(model_name@) + "/model.onnx.data"@,
{
    let a = concat("https://modelscope.cn/models/bikeand/", model_name);
    let base = concat(a.as_str(), "/resolve/master");
    let mut r: Vec<(String, String)> = Vec::new();
    r.push((owned("vocab.json"), concat(base.as_str(), "/vocab.json")));
    r.push((owned("model.onnx"), concat(base.as_str(), "/model.onnx")));
    r.push((owned("model.onnx.data"), concat(base.as_str(), "/model.onnx.data")));
    r
}

} // verus!
