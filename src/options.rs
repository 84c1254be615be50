use url::Url;
use vstd::prelude::*;
use crate::errors::KuponError;
use crate::text::{decimal, decimal_text, joined, opt_view};
use crate::types::{asset_text, parse_asset_text, AssetId};
use crate::urls::{
    append_query_key, append_query_pair, copy_url, set_url_path, url_text, with_path, with_query,
};

verus! {

/// Which outputs to return: only spent ones, or only unspent ones.
#[derive(Clone, Copy, Debug, PartialEq, Eq, Structural)]
pub enum SpentStatus {
    Unspent,
    Spent,
}

/// A filter on an asset: a policy id, optionally narrowed to one asset name.
#[derive(Clone, Debug)]
pub struct AssetIdOptions {
    pub policy_id: String,
    pub asset_name: Option<String>,
}

/// A filter on a transaction: its id, optionally narrowed to one output.
#[derive(Clone, Debug)]
pub struct TransactionIdOptions {
    pub transaction_id: String,
    pub output_index: Option<u64>,
}

/// The pattern form of a transaction filter: `index@id`, or `*@id` for every output.
pub open spec fn transaction_text(transaction_id: Seq<char>, output_index: Option<u64>) -> Seq<char> {
    match output_index {
        Some(i) => decimal(i as nat) + seq!['@'] + transaction_id,
        None => seq!['*', '@'] + transaction_id,
    }
}

impl AssetIdOptions {
    /// The pattern form of the filter: `policy.name`, or the policy id alone.
    pub fn to_pattern(&self) -> (r: String)
        ensures
            r@ == asset_text(self.policy_id@, opt_view(self.asset_name)),
    {
        match &self.asset_name {
            Some(name) => {
                let mut r = joined(self.policy_id.as_str(), ".");
                r.append(name.as_str());
                proof {
                    reveal_strlit(".");
                }
                r
            },
            None => self.policy_id.clone(),
        }
    }
}

impl TransactionIdOptions {
    /// The pattern form of the filter: `index@id`, or `*@id`.
    pub fn to_pattern(&self) -> (r: String)
        ensures
            r@ == transaction_text(self.transaction_id@, self.output_index),
    {
        proof {
            reveal_strlit("@");
            reveal_strlit("*@");
        }
        match self.output_index {
            Some(index) => {
                let mut r = decimal_text(index);
                r.append("@");
                r.append(self.transaction_id.as_str());
                r
            },
            None => joined("*@", self.transaction_id.as_str()),
        }
    }
}

/// What a set of match options asks for.
pub ghost struct MatchOptionsView {
    pub spent_status: Option<SpentStatus>,
    pub address: Option<Seq<char>>,
    pub credential: Option<Seq<char>>,
    /// Policy id and optional asset name.
    pub asset: Option<(Seq<char>, Option<Seq<char>>)>,
    /// Transaction id and optional output index.
    pub transaction: Option<(Seq<char>, Option<u64>)>,
}

/// The options that select no outputs in particular.
pub open spec fn no_options() -> MatchOptionsView {
    MatchOptionsView {
        spent_status: None,
        address: None,
        credential: None,
        asset: None,
        transaction: None,
    }
}

/// A key of the query string, with its value if it has one.
pub type QueryPairView = (Seq<char>, Option<Seq<char>>);

/// Address and credential both set: no single pattern can stand for both.
pub open spec fn is_conflicting(v: MatchOptionsView) -> bool {
    v.address is Some && v.credential is Some
}

/// The path segment after `matches/`: address, else credential, else the asset
/// filter, else the transaction filter.
pub open spec fn pattern_of(v: MatchOptionsView) -> Option<Seq<char>> {
    match (v.address, v.credential, v.asset, v.transaction) {
        (Some(a), _, _, _) => Some(a),
        (None, Some(c), _, _) => Some(c),
        (None, None, Some((p, n)), _) => Some(asset_text(p, n)),
        (None, None, None, Some((t, i))) => Some(transaction_text(t, i)),
        (None, None, None, None) => None,
    }
}

/// The request path.
pub open spec fn path_of(v: MatchOptionsView) -> Seq<char> {
    match pattern_of(v) {
        Some(p) => "matches/"@ + p,
        None => "matches"@,
    }
}

/// The query pairs of a transaction filter that is not the pattern.
pub open spec fn transaction_pairs(v: MatchOptionsView) -> Seq<QueryPairView> {
    match v.transaction {
        Some((t, i)) => if v.address is Some || v.credential is Some || v.asset is Some {
            seq![("transaction_id"@, Some(t))] + match i {
                Some(i) => seq![("output_index"@, Some(decimal(i as nat)))],
                None => Seq::<QueryPairView>::empty(),
            }
        } else {
            Seq::empty()
        },
        None => Seq::empty(),
    }
}

/// The query pairs of an asset filter that is not the pattern.
pub open spec fn asset_pairs(v: MatchOptionsView) -> Seq<QueryPairView> {
    match v.asset {
        Some((p, n)) => if v.address is Some || v.credential is Some {
            seq![("policy_id"@, Some(p))] + match n {
                Some(n) => seq![("asset_name"@, Some(n))],
                None => Seq::<QueryPairView>::empty(),
            }
        } else {
            Seq::empty()
        },
        None => Seq::empty(),
    }
}

/// The value-less flag for the spent status, if one is set.
pub open spec fn status_pairs(s: Option<SpentStatus>) -> Seq<QueryPairView> {
    match s {
        Some(SpentStatus::Spent) => seq![("spent"@, None)],
        Some(SpentStatus::Unspent) => seq![("unspent"@, None)],
        None => Seq::empty(),
    }
}

/// The query string's pairs, in order: transaction, asset, spent status.
pub open spec fn query_of(v: MatchOptionsView) -> Seq<QueryPairView> {
    transaction_pairs(v) + asset_pairs(v) + status_pairs(v.spent_status)
}

/// One `key` or `key=value` of a query string.
#[derive(Clone, Debug)]
pub struct QueryPair {
    pub key: String,
    pub value: Option<String>,
}

impl View for QueryPair {
    type V = QueryPairView;

    open spec fn view(&self) -> QueryPairView {
        (self.key@, opt_view(self.value))
    }
}

/// A request's path and query pairs, before they are joined to the endpoint.
#[derive(Clone, Debug)]
pub struct RequestTarget {
    pub path: String,
    pub query: Vec<QueryPair>,
}

impl View for RequestTarget {
    type V = (Seq<char>, Seq<QueryPairView>);

    open spec fn view(&self) -> (Seq<char>, Seq<QueryPairView>) {
        (self.path@, self.query@.map_values(|q: QueryPair| q@))
    }
}

fn key_pair(key: &str) -> (r: QueryPair)
    ensures
        r@ == (key@, None::<Seq<char>>),
{
    QueryPair { key: String::from_str(key), value: None }
}

fn value_pair(key: &str, value: &str) -> (r: QueryPair)
    ensures
        r@ == (key@, Some(value@)),
{
    QueryPair { key: String::from_str(key), value: Some(String::from_str(value)) }
}

/// Filters for a query of matches. Each method returns the options with one more
/// filter set, replacing one of the same kind.
#[derive(Clone, Debug)]
pub struct MatchOptions {
    spent_status: Option<SpentStatus>,
    address: Option<String>,
    credential: Option<String>,
    asset: Option<AssetIdOptions>,
    transaction: Option<TransactionIdOptions>,
}

impl View for MatchOptions {
    type V = MatchOptionsView;

    closed spec fn view(&self) -> MatchOptionsView {
        MatchOptionsView {
            spent_status: self.spent_status,
            address: opt_view(self.address),
            credential: opt_view(self.credential),
            asset: match self.asset {
                Some(a) => Some((a.policy_id@, opt_view(a.asset_name))),
                None => None,
            },
            transaction: match self.transaction {
                Some(t) => Some((t.transaction_id@, t.output_index)),
                None => None,
            },
        }
    }
}

impl Default for MatchOptions {
    fn default() -> (r: MatchOptions)
        ensures
            r@ == no_options(),
    {
        MatchOptions {
            spent_status: None,
            address: None,
            credential: None,
            asset: None,
            transaction: None,
        }
    }
}

impl MatchOptions {
    /// Only outputs that have been spent.
    pub fn only_spent(self) -> (r: MatchOptions)
        ensures
            r@ == (MatchOptionsView { spent_status: Some(SpentStatus::Spent), ..self@ }),
    {
        MatchOptions { spent_status: Some(SpentStatus::Spent), ..self }
    }

    /// Only outputs that are still unspent.
    pub fn only_unspent(self) -> (r: MatchOptions)
        ensures
            r@ == (MatchOptionsView { spent_status: Some(SpentStatus::Unspent), ..self@ }),
    {
        MatchOptions { spent_status: Some(SpentStatus::Unspent), ..self }
    }

    /// Outputs at this address.
    pub fn address(self, address: &str) -> (r: MatchOptions)
        ensures
            r@ == (MatchOptionsView { address: Some(address@), ..self@ }),
    {
        MatchOptions { address: Some(String::from_str(address)), ..self }
    }

    /// Outputs locked by this payment or delegation credential.
    pub fn credential(self, credential: &str) -> (r: MatchOptions)
        ensures
            r@ == (MatchOptionsView { credential: Some(credential@), ..self@ }),
    {
        MatchOptions { credential: Some(String::from_str(credential)), ..self }
    }

    /// Outputs holding any asset of this policy.
    pub fn policy_id(self, policy_id: &str) -> (r: MatchOptions)
        ensures
            r@ == (MatchOptionsView { asset: Some((policy_id@, None)), ..self@ }),
    {
        let asset = AssetIdOptions { policy_id: String::from_str(policy_id), asset_name: None };
        MatchOptions { asset: Some(asset), ..self }
    }

    /// Outputs holding this asset, given as `policy.name` or as a bare policy id.
    pub fn asset_id(self, asset_id: &str) -> (r: MatchOptions)
        ensures
            r@ == (MatchOptionsView { asset: Some(parse_asset_text(asset_id@)), ..self@ }),
    {
        let id = AssetId::from_hex(asset_id);
        let asset = AssetIdOptions { policy_id: id.policy_id, asset_name: id.asset_name };
        MatchOptions { asset: Some(asset), ..self }
    }

    /// Outputs of this transaction.
    pub fn transaction(self, transaction_id: &str) -> (r: MatchOptions)
        ensures
            r@ == (MatchOptionsView { transaction: Some((transaction_id@, None)), ..self@ }),
    {
        let transaction = TransactionIdOptions {
            transaction_id: String::from_str(transaction_id),
            output_index: None,
        };
        MatchOptions { transaction: Some(transaction), ..self }
    }

    /// The output of this transaction at this index.
    pub fn transaction_output(self, transaction_id: &str, index: u64) -> (r: MatchOptions)
        ensures
            r@ == (MatchOptionsView { transaction: Some((transaction_id@, Some(index))), ..self@ }),
    {
        let transaction = TransactionIdOptions {
            transaction_id: String::from_str(transaction_id),
            output_index: Some(index),
        };
        MatchOptions { transaction: Some(transaction), ..self }
    }
    /// The request path and query pairs these options compile to. Fails with
    /// `InvalidQuery` exactly when both an address and a credential are set.
    pub fn to_target(&self) -> (r: Result<RequestTarget, KuponError>)
        ensures
            match r {
                Ok(t) => !is_conflicting(self@) && t@ == (path_of(self@), query_of(self@)),
                Err(e) => is_conflicting(self@) && e is InvalidQuery,
            },
    {
        if self.address.is_some() && self.credential.is_some() {
            return Err(
                KuponError::InvalidQuery(
                    String::from_str("cannot query by both address and credential at once"),
                ),
            );
        }
        let v = Ghost(self@);
        let pattern: Option<String> = match &self.address {
            Some(a) => Some(a.clone()),
            None => match &self.credential {
                Some(c) => Some(c.clone()),
                None => match &self.asset {
                    Some(a) => Some(a.to_pattern()),
                    None => match &self.transaction {
                        Some(t) => Some(t.to_pattern()),
                        None => None,
                    },
                },
            },
        };
        assert(opt_view(pattern) == pattern_of(v@));
        let keyed = self.address.is_some() || self.credential.is_some();

        let mut query: Vec<QueryPair> = Vec::new();
        proof {
            reveal_strlit("transaction_id");
            reveal_strlit("output_index");
            reveal_strlit("policy_id");
            reveal_strlit("asset_name");
            reveal_strlit("spent");
            reveal_strlit("unspent");
            reveal_strlit("matches");
            reveal_strlit("matches/");
        }
        if let Some(t) = &self.transaction {
            if keyed || self.asset.is_some() {
                query.push(value_pair("transaction_id", t.transaction_id.as_str()));
                if let Some(index) = t.output_index {
                    let text = decimal_text(index);
                    query.push(value_pair("output_index", text.as_str()));
                }
            }
        }
        assert(query@.map_values(|q: QueryPair| q@) =~= transaction_pairs(v@));
        if let Some(a) = &self.asset {
            if keyed {
                query.push(value_pair("policy_id", a.policy_id.as_str()));
                if let Some(name) = &a.asset_name {
                    query.push(value_pair("asset_name", name.as_str()));
                }
            }
        }
        assert(query@.map_values(|q: QueryPair| q@) =~= transaction_pairs(v@) + asset_pairs(v@));
        match self.spent_status {
            Some(SpentStatus::Spent) => query.push(key_pair("spent")),
            Some(SpentStatus::Unspent) => query.push(key_pair("unspent")),
            None => {},
        }
        assert(query@.map_values(|q: QueryPair| q@) =~= query_of(v@));
        let path = match pattern {
            Some(p) => joined("matches/", p.as_str()),
            None => String::from_str("matches"),
        };
        Ok(RequestTarget { path, query })
    }

    /// The URL of the matches these options select, on the server at `endpoint`:
    /// the endpoint with the path and query pairs of `to_target`. Fails with
    /// `InvalidQuery` exactly when both an address and a credential are set.
    pub fn to_url(&self, endpoint: &Url) -> (r: Result<Url, KuponError>)
        ensures
            r is Ok <==> !is_conflicting(self@),
            r is Err ==> r->Err_0 is InvalidQuery,
            r matches Ok(u) ==> url_text(u) == with_query(
                with_path(url_text(*endpoint), path_of(self@)),
                query_of(self@),
            ),
    {
        let target = match self.to_target() {
            Ok(t) => t,
            Err(e) => return Err(e),
        };
        let mut url = copy_url(endpoint);
        set_url_path(&mut url, target.path.as_str());
        let ghost base = url_text(url);
        let ghost pairs = target@.1;
        let n = target.query.len();
        let mut i: usize = 0;
        while i < n
            invariant
                n == target.query.len(),
                i <= n,
                pairs == target@.1,
                pairs.len() == n,
                url_text(url) == with_query(base, pairs.take(i as int)),
            decreases n - i,
        {
            let pair = &target.query[i];
            assert(pairs.take(i + 1).drop_last() =~= pairs.take(i as int));
            assert(pairs[i as int] == pair@);
            match &pair.value {
                Some(value) => append_query_pair(&mut url, pair.key.as_str(), value.as_str()),
                None => append_query_key(&mut url, pair.key.as_str()),
            }
            i += 1;
        }
        assert(pairs.take(n as int) =~= pairs);
        Ok(url)
    }
}

/// How many of address, credential, asset and transaction are set.
pub open spec fn filter_count(v: MatchOptionsView) -> nat {
    (if v.address is Some { 1nat } else { 0nat }) + (if v.credential is Some { 1nat } else { 0nat })
        + (if v.asset is Some { 1nat } else { 0nat }) + (if v.transaction is Some { 1nat } else { 0nat })
}

/// With exactly one of address, credential, asset and transaction set, the path is
/// `matches/` and that filter's pattern form, and the query holds at most the spent
/// status flag.
pub proof fn lemma_single_filter_is_pattern(v: MatchOptionsView)
    requires
        filter_count(v) == 1,
    ensures
        !is_conflicting(v),
        v.address matches Some(a) ==> path_of(v) == "matches/"@ + a,
        v.credential matches Some(c) ==> path_of(v) == "matches/"@ + c,
        v.asset matches Some((p, n)) ==> path_of(v) == "matches/"@ + asset_text(p, n),
        v.transaction matches Some((t, i)) ==> path_of(v) == "matches/"@ + transaction_text(t, i),
        query_of(v) == status_pairs(v.spent_status),
{
    assert(query_of(v) =~= status_pairs(v.spent_status));
}

} // verus!
