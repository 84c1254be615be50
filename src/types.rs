use std::collections::BTreeMap;
use vstd::prelude::*;
use crate::text::{find_char, first_index_of, is_first_index, joined, lemma_first_index, lemma_no_index};

verus! {

/// One unspent (or spent) transaction output that the index server matched.
#[derive(Debug, Clone)]
pub struct Match {
    pub transaction_index: u64,
    pub transaction_id: String,
    pub output_index: u64,
    pub address: String,
    pub value: MatchValue,
    pub datum: Option<DatumHash>,
    pub script_hash: Option<String>,
    pub created_at: Option<BlockReference>,
    pub spent_at: Option<BlockReference>,
}

/// A datum attached to an output: its kind and its hash.
#[derive(Debug, Clone)]
pub struct DatumHash {
    pub typ: String,
    pub hash: String,
}

/// Lovelace and native assets held by an output.
#[derive(Debug, Clone)]
pub struct MatchValue {
    pub coins: u64,
    pub assets: BTreeMap<AssetId, u64>,
}

/// A native asset: its policy id and, optionally, its asset name (both hex).
#[derive(Debug, Clone, Eq, Ord, PartialEq, PartialOrd, Hash)]
pub struct AssetId {
    pub policy_id: String,
    pub asset_name: Option<String>,
}

/// A point on the chain.
#[derive(Debug, Clone)]
pub struct BlockReference {
    pub slot_no: u64,
    pub header_hash: String,
}

/// The textual form of an asset id: `policy.name`, or the policy id alone.
pub open spec fn asset_text(policy_id: Seq<char>, asset_name: Option<Seq<char>>) -> Seq<char> {
    match asset_name {
        Some(name) => policy_id + seq!['.'] + name,
        None => policy_id,
    }
}

/// Reads an asset id's text: split at the first `.`, the policy id alone when none.
pub open spec fn parse_asset_text(s: Seq<char>) -> (Seq<char>, Option<Seq<char>>) {
    match first_index_of(s, '.') {
        Some(k) => (s.subrange(0, k), Some(s.subrange(k + 1, s.len() as int))),
        None => (s, None),
    }
}

impl View for AssetId {
    type V = (Seq<char>, Option<Seq<char>>);

    open spec fn view(&self) -> (Seq<char>, Option<Seq<char>>) {
        (
            self.policy_id@,
            match self.asset_name {
                Some(n) => Some(n@),
                None => None,
            },
        )
    }
}

impl AssetId {
    /// Reads the textual form `policy.name` or `policy`.
    pub fn from_hex(hex: &str) -> (r: AssetId)
        ensures
            r@ == parse_asset_text(hex@),
    {
        match find_char(hex, '.') {
            Some(k) => {
                let n = hex.unicode_len();
                let policy_id = hex.substring_char(0, k).to_owned();
                let asset_name = hex.substring_char(k + 1, n).to_owned();
                AssetId { policy_id, asset_name: Some(asset_name) }
            },
            None => AssetId { policy_id: hex.to_owned(), asset_name: None },
        }
    }

    /// The textual form: `policy.name` when a name is set, else the policy id.
    pub fn to_hex(&self) -> (r: String)
        ensures
            r@ == asset_text(self@.0, self@.1),
    {
        match &self.asset_name {
            Some(name) => {
                let mut r = joined(self.policy_id.as_str(), ".");
                r.append(name.as_str());
                proof {
                    reveal_strlit(".");
                }
                r
            },
            None => self.policy_id.clone(),
        }
    }
}

/// An asset id whose policy id holds no `.` reads back from its text unchanged.
pub proof fn lemma_asset_text_round_trip(policy_id: Seq<char>, asset_name: Option<Seq<char>>)
    requires
        !policy_id.contains('.'),
    ensures
        parse_asset_text(asset_text(policy_id, asset_name)) == (policy_id, asset_name),
{
    let s = asset_text(policy_id, asset_name);
    match asset_name {
        Some(name) => {
            let k = policy_id.len() as int;
            assert(s[k] == '.');
            assert forall|j: int| 0 <= j < k implies s[j] != '.' by {
                assert(s[j] == policy_id[j]);
            }
            assert(is_first_index(s, '.', k));
            lemma_first_index(s, '.', k);
            assert(s.subrange(0, k) =~= policy_id);
            assert(s.subrange(k + 1, s.len() as int) =~= name);
        },
        None => {
            assert forall|j: int| 0 <= j < s.len() implies s[j] != '.' by {
                if s[j] == '.' {
                    assert(policy_id.contains('.'));
                }
            }
            lemma_no_index(s, '.');
        },
    }
}

/// Text of the form `policy.name`, with no `.` in the policy id, reads as that policy
/// id and that name; a bare policy id with no `.` reads as that policy id with no name.
pub proof fn lemma_asset_text_decodes(policy_id: Seq<char>, asset_name: Seq<char>)
    requires
        !policy_id.contains('.'),
    ensures
        parse_asset_text(policy_id + seq!['.'] + asset_name) == (policy_id, Some(asset_name)),
        parse_asset_text(policy_id) == (policy_id, None::<Seq<char>>),
{
    lemma_asset_text_round_trip(policy_id, Some(asset_name));
    lemma_asset_text_round_trip(policy_id, None);
}

} // verus!
