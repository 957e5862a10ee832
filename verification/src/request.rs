//! A request before it is bound to a host, and its query parameters.

use vstd::prelude::*;
use vstd::string::*;
use crate::config::Scheme;
use crate::text::{decimal, decimal_string, join, lemma_map_next};

verus! {

/// The HTTP methods that the cluster's API is called with.
#[derive(Clone, Copy, Debug, PartialEq, Eq)]
pub enum Method {
    Get,
    Post,
    Delete,
}

/// One query parameter as it is sent.
#[derive(Debug)]
pub enum RequestQueryParam {
    /// A flag, sent as `name=true`.
    Bool(String),
    /// A name and its value.
    KV(String, String),
}

impl RequestQueryParam {
    /// The parameter's name.
    pub open spec fn name(&self) -> Seq<char> {
        match self {
            RequestQueryParam::Bool(name) => name@,
            RequestQueryParam::KV(name, _) => name@,
        }
    }

    /// The value that is sent under the name.
    pub open spec fn value(&self) -> Seq<char> {
        match self {
            RequestQueryParam::Bool(_) => "true"@,
            RequestQueryParam::KV(_, value) => value@,
        }
    }

    /// The pair of name and value that goes into the URL's query.
    pub fn into_reqwest_query(self) -> (pair: (String, String))
        ensures
            pair.0@ == self.name(),
            pair.1@ == self.value(),
    {
        match self {
            RequestQueryParam::Bool(name) => (name, String::from_str("true")),
            RequestQueryParam::KV(name, value) => (name, value),
        }
    }

    /// Whether the two parameters have the same name.
    pub fn is_same_key(&self, other: &RequestQueryParam) -> (same: bool)
        ensures
            same == (self.name() == other.name()),
    {
        let mine = match self {
            RequestQueryParam::Bool(name) => name,
            RequestQueryParam::KV(name, _) => name,
        };
        let theirs = match other {
            RequestQueryParam::Bool(name) => name,
            RequestQueryParam::KV(name, _) => name,
        };
        *mine == *theirs
    }
}

impl View for RequestQueryParam {
    type V = (Seq<char>, Seq<char>);

    open spec fn view(&self) -> (Seq<char>, Seq<char>) {
        (self.name(), self.value())
    }
}

impl Clone for RequestQueryParam {
    fn clone(&self) -> (copy: RequestQueryParam)
        ensures
            copy == *self,
    {
        match self {
            RequestQueryParam::Bool(name) => RequestQueryParam::Bool(name.clone()),
            RequestQueryParam::KV(name, value) => RequestQueryParam::KV(
                name.clone(),
                value.clone(),
            ),
        }
    }
}

/// Whether one of `pairs` is named `name`.
pub open spec fn has_name(pairs: Seq<(Seq<char>, Seq<char>)>, name: Seq<char>) -> bool {
    exists|i: int| 0 <= i < pairs.len() && (#[trigger] pairs[i]).0 == name
}

/// `mine` followed by those of `other`, in order, whose name has not
/// occurred before: a name that both have keeps the value it has in `mine`,
/// and of two in `other` with one name the first stays.
pub open spec fn merged(
    mine: Seq<(Seq<char>, Seq<char>)>,
    other: Seq<(Seq<char>, Seq<char>)>,
) -> Seq<(Seq<char>, Seq<char>)>
    decreases other.len(),
{
    if other.len() == 0 {
        mine
    } else if has_name(mine, other[0].0) {
        merged(mine, other.drop_first())
    } else {
        merged(mine.push(other[0]), other.drop_first())
    }
}

/// Whether one of `params` is named `name`.
pub open spec fn list_has_name(params: Seq<RequestQueryParam>, name: Seq<char>) -> bool {
    exists|i: int| 0 <= i < params.len() && (#[trigger] params[i]).name() == name
}

/// `mine` followed by those of `other`, in order, whose name has not
/// occurred before, each as it is: a flag stays a flag, and a pair a pair.
pub open spec fn merged_list(
    mine: Seq<RequestQueryParam>,
    other: Seq<RequestQueryParam>,
) -> Seq<RequestQueryParam>
    decreases other.len(),
{
    if other.len() == 0 {
        mine
    } else if list_has_name(mine, other[0].name()) {
        merged_list(mine, other.drop_first())
    } else {
        merged_list(mine.push(other[0]), other.drop_first())
    }
}

/// The pairs of name and value of `params`, in order.
pub open spec fn pairs_of(params: Seq<RequestQueryParam>) -> Seq<(Seq<char>, Seq<char>)> {
    params.map_values(|param: RequestQueryParam| param@)
}

/// A name is among the parameters exactly when it is among their pairs.
pub proof fn lemma_names_of_list(params: Seq<RequestQueryParam>, name: Seq<char>)
    ensures
        list_has_name(params, name) == has_name(pairs_of(params), name),
{
    if list_has_name(params, name) {
        let at = choose|i: int| 0 <= i < params.len() && (#[trigger] params[i]).name() == name;
        assert(pairs_of(params)[at].0 == name);
    }
    if has_name(pairs_of(params), name) {
        let at = choose|i: int|
            0 <= i < pairs_of(params).len() && (#[trigger] pairs_of(params)[i]).0 == name;
        assert(params[at].name() == name);
    }
}

/// The pairs of a merged list are the merged pairs.
pub proof fn lemma_pairs_of_merged_list(mine: Seq<RequestQueryParam>, other: Seq<RequestQueryParam>)
    ensures
        pairs_of(merged_list(mine, other)) == merged(pairs_of(mine), pairs_of(other)),
    decreases other.len(),
{
    if other.len() > 0 {
        lemma_names_of_list(mine, other[0].name());
        assert(pairs_of(other)[0] == other[0]@);
        assert(pairs_of(other).drop_first() =~= pairs_of(other.drop_first()));
        if list_has_name(mine, other[0].name()) {
            lemma_pairs_of_merged_list(mine, other.drop_first());
        } else {
            assert(pairs_of(mine.push(other[0])) =~= pairs_of(mine).push(other[0]@));
            lemma_pairs_of_merged_list(mine.push(other[0]), other.drop_first());
        }
    }
}

/// No two of `pairs` have the same name.
pub open spec fn names_unique(pairs: Seq<(Seq<char>, Seq<char>)>) -> bool {
    forall|i: int, j: int|
        0 <= i < j < pairs.len() ==> (#[trigger] pairs[i]).0 != (#[trigger] pairs[j]).0
}

/// The query parameters of one request, in the order in which they are sent.
#[derive(Debug)]
pub struct RequestQueryParams(pub Vec<RequestQueryParam>);

impl View for RequestQueryParams {
    type V = Seq<(Seq<char>, Seq<char>)>;

    /// The pairs of name and value, in order.
    open spec fn view(&self) -> Seq<(Seq<char>, Seq<char>)> {
        self.0@.map_values(|param: RequestQueryParam| param@)
    }
}

/// The pairs of a URL's query as the contracts see them.
pub open spec fn query_pairs(pairs: Seq<(String, String)>) -> Seq<(Seq<char>, Seq<char>)> {
    pairs.map_values(|pair: (String, String)| (pair.0@, pair.1@))
}

impl Clone for RequestQueryParams {
    fn clone(&self) -> (copy: RequestQueryParams)
        ensures
            copy@ == self@,
            copy.0@ == self.0@,
    {
        let mut params: Vec<RequestQueryParam> = Vec::new();
        let mut i: usize = 0;
        while i < self.0.len()
            invariant
                i <= self.0.len(),
                params@ == self.0@.take(i as int),
            decreases self.0.len() - i,
        {
            params.push(self.0[i].clone());
            assert(params@ =~= self.0@.take(i + 1));
            i += 1;
        }
        assert(params@ =~= self.0@);
        RequestQueryParams(params)
    }
}

impl Default for RequestQueryParams {
    fn default() -> (params: RequestQueryParams)
        ensures
            params.0@ == Seq::<RequestQueryParam>::empty(),
            params@ == Seq::<(Seq<char>, Seq<char>)>::empty(),
    {
        let params = RequestQueryParams(Vec::new());
        assert(params@ =~= Seq::<(Seq<char>, Seq<char>)>::empty());
        params
    }
}

impl RequestQueryParams {
    /// Which of the parameters are flags, in order.
    pub open spec fn flags(&self) -> Seq<bool> {
        self.0@.map_values(|param: RequestQueryParam| param is Bool)
    }

    /// No parameters.
    pub fn new() -> (params: RequestQueryParams)
        ensures
            params.0@ == Seq::<RequestQueryParam>::empty(),
            params@ == Seq::<(Seq<char>, Seq<char>)>::empty(),
    {
        RequestQueryParams::default()
    }

    /// The pairs of name and value that go into the URL's query, in order.
    pub fn into_reqwest_query(self) -> (pairs: Vec<(String, String)>)
        ensures
            query_pairs(pairs@) == self@,
    {
        let params = self.0;
        let ghost all = params@;
        let mut pairs: Vec<(String, String)> = Vec::new();
        for param in iter: params
            invariant
                iter.seq() == all,
                query_pairs(pairs@) == all.take(iter.index() as int).map_values(
                    |param: RequestQueryParam| param@,
                ),
        {
            let ghost done = pairs@;
            let pair = param.into_reqwest_query();
            pairs.push(pair);
            proof {
                let k = iter.index() as int;
                assert(param == all[k]);
                lemma_map_next(all, |param: RequestQueryParam| param@, k);
                assert(query_pairs(pairs@) =~= query_pairs(done).push((pair.0@, pair.1@)));
            }
        }
        proof {
            assert(all.take(all.len() as int) =~= all);
        }
        pairs
    }

    /// Adds the parameters of `other` whose name is not taken yet, each as
    /// it is.
    pub fn merge(&mut self, other: RequestQueryParams)
        ensures
            final(self).0@ == merged_list(old(self).0@, other.0@),
            final(self)@ == merged(old(self)@, other@),
            names_unique(old(self)@) ==> names_unique(final(self)@),
    {
        let given = other.0;
        let ghost start = self.0@;
        let mut i: usize = 0;
        assert(given@.skip(0) =~= given@);
        while i < given.len()
            invariant
                i <= given.len(),
                merged_list(self.0@, given@.skip(i as int)) == merged_list(start, given@),
            decreases given.len() - i,
        {
            let ghost before = self.0@;
            let ghost rest = given@.skip(i as int);
            assert(rest.drop_first() =~= given@.skip(i + 1));
            assert(rest[0] == given@[i as int]);
            let mut taken = false;
            let mut j: usize = 0;
            while j < self.0.len()
                invariant
                    j <= self.0.len(),
                    i < given.len(),
                    self.0@ == before,
                    taken == exists|k: int|
                        0 <= k < j && (#[trigger] before[k]).name() == given@[i as int].name(),
                decreases self.0.len() - j,
            {
                if self.0[j].is_same_key(&given[i]) {
                    assert(before[j as int].name() == given@[i as int].name());
                    taken = true;
                }
                j += 1;
            }
            assert(taken == list_has_name(before, rest[0].name()));
            if !taken {
                self.0.push(given[i].clone());
                assert(self.0@ =~= before.push(rest[0]));
            }
            i += 1;
        }
        proof {
            assert(given@.skip(given@.len() as int) =~= Seq::<RequestQueryParam>::empty());
            lemma_pairs_of_merged_list(start, given@);
            if names_unique(pairs_of(start)) {
                lemma_merge_keeps_names_unique(pairs_of(start), pairs_of(given@));
            }
        }
    }
}

/// Adding parameters never touches the ones that were there: they stay in
/// front, with their values.
pub proof fn lemma_merge_keeps_first(
    mine: Seq<(Seq<char>, Seq<char>)>,
    other: Seq<(Seq<char>, Seq<char>)>,
)
    ensures
        mine.is_prefix_of(merged(mine, other)),
    decreases other.len(),
{
    if other.len() > 0 {
        if has_name(mine, other[0].0) {
            lemma_merge_keeps_first(mine, other.drop_first());
        } else {
            lemma_merge_keeps_first(mine.push(other[0]), other.drop_first());
            assert(mine.is_prefix_of(mine.push(other[0])));
        }
    }
}

/// After merging, every name of either side is present.
pub proof fn lemma_merge_covers_names(
    mine: Seq<(Seq<char>, Seq<char>)>,
    other: Seq<(Seq<char>, Seq<char>)>,
    name: Seq<char>,
)
    requires
        has_name(mine, name) || has_name(other, name),
    ensures
        has_name(merged(mine, other), name),
    decreases other.len(),
{
    lemma_merge_keeps_first(mine, other);
    if has_name(mine, name) {
        let at = choose|i: int| 0 <= i < mine.len() && (#[trigger] mine[i]).0 == name;
        assert(merged(mine, other)[at] == mine[at]);
    } else {
        let at = choose|i: int| 0 <= i < other.len() && (#[trigger] other[i]).0 == name;
        let next = if has_name(mine, other[0].0) {
            mine
        } else {
            mine.push(other[0])
        };
        if at == 0 {
            if !has_name(mine, other[0].0) {
                assert(next[mine.len() as int] == other[0]);
            }
            assert(has_name(next, name));
        } else {
            assert(other.drop_first()[at - 1] == other[at]);
            assert(has_name(other.drop_first(), name));
        }
        lemma_merge_covers_names(next, other.drop_first(), name);
    }
}

/// Parameters whose names are all taken add nothing.
pub proof fn lemma_merge_of_taken_names(
    mine: Seq<(Seq<char>, Seq<char>)>,
    other: Seq<(Seq<char>, Seq<char>)>,
)
    requires
        forall|i: int| 0 <= i < other.len() ==> has_name(mine, (#[trigger] other[i]).0),
    ensures
        merged(mine, other) == mine,
    decreases other.len(),
{
    if other.len() > 0 {
        assert(has_name(mine, other[0].0));
        assert forall|i: int| 0 <= i < other.drop_first().len() implies has_name(
            mine,
            (#[trigger] other.drop_first()[i]).0,
        ) by {
            assert(other.drop_first()[i] == other[i + 1]);
        }
        lemma_merge_of_taken_names(mine, other.drop_first());
    }
}

/// Merging the same parameters a second time changes nothing, so that the
/// defaults of a client may be merged into a request once or before each
/// time that it is sent.
pub proof fn lemma_merge_is_idempotent(
    mine: Seq<(Seq<char>, Seq<char>)>,
    other: Seq<(Seq<char>, Seq<char>)>,
)
    ensures
        merged(merged(mine, other), other) == merged(mine, other),
{
    assert forall|i: int| 0 <= i < other.len() implies has_name(
        merged(mine, other),
        (#[trigger] other[i]).0,
    ) by {
        lemma_merge_covers_names(mine, other, other[i].0);
    }
    lemma_merge_of_taken_names(merged(mine, other), other);
}

/// Merging into parameters with unique names leaves the names unique.
pub proof fn lemma_merge_keeps_names_unique(
    mine: Seq<(Seq<char>, Seq<char>)>,
    other: Seq<(Seq<char>, Seq<char>)>,
)
    requires
        names_unique(mine),
    ensures
        names_unique(merged(mine, other)),
    decreases other.len(),
{
    if other.len() > 0 {
        if has_name(mine, other[0].0) {
            lemma_merge_keeps_names_unique(mine, other.drop_first());
        } else {
            lemma_merge_keeps_names_unique(mine.push(other[0]), other.drop_first());
        }
    }
}

/// How fresh the data that a read returns must be.
#[derive(Clone, Copy, Debug, PartialEq, Eq)]
pub enum RqliteFreshnessLevel {
    /// Any node answers from what it has.
    NoLevel,
    /// The node checks that it is the leader.
    Weak,
    /// The read goes through the cluster's consensus.
    Strong,
}

impl RqliteFreshnessLevel {
    /// The level as the API names it.
    pub open spec fn text(self) -> Seq<char> {
        match self {
            RqliteFreshnessLevel::NoLevel => "none"@,
            RqliteFreshnessLevel::Weak => "weak"@,
            RqliteFreshnessLevel::Strong => "strong"@,
        }
    }

    /// The level as the API names it: `none`, `weak` or `strong`.
    pub fn to_string(&self) -> (text: String)
        ensures
            text@ == self.text(),
    {
        match self {
            RqliteFreshnessLevel::NoLevel => String::from_str("none"),
            RqliteFreshnessLevel::Weak => String::from_str("weak"),
            RqliteFreshnessLevel::Strong => String::from_str("strong"),
        }
    }
}

/// A number of seconds that is not zero.
#[derive(Clone, Copy, Debug)]
pub struct Seconds {
    count: u16,
}

impl View for Seconds {
    type V = nat;

    closed spec fn view(&self) -> nat {
        self.count as nat
    }
}

impl Seconds {
    #[verifier::type_invariant]
    spec fn positive(self) -> bool {
        self.count > 0
    }

    /// `count` seconds, unless `count` is zero.
    pub fn new(count: u16) -> (seconds: Option<Seconds>)
        ensures
            count == 0 ==> seconds is None,
            count > 0 ==> seconds is Some && seconds->0@ == count,
    {
        if count == 0 {
            None
        } else {
            Some(Seconds { count })
        }
    }

    /// The number of seconds.
    pub fn get(&self) -> (count: u16)
        ensures
            count == self@,
            count > 0,
    {
        proof {
            use_type_invariant(self);
        }
        self.count
    }
}

/// A query parameter of the cluster's API.
pub enum RqliteQueryParam {
    /// Pretty-print the response.
    Pretty,
    /// Include timing information in the response.
    Timings,
    /// Execute the statements in one transaction.
    Transaction,
    /// Queue the statements for later execution.
    Queue,
    /// The time after which the request is given up.
    Timeout(Seconds),
    /// The freshness level of a read.
    Level(RqliteFreshnessLevel),
    /// How stale the data of a read may be.
    Freshness(Seconds),
    /// Hold reads to the freshness asked for.
    FreshnessStrict,
    /// Do not rewrite `RANDOM()`.
    NoRWRandom,
    /// The version of the API.
    Ver(String),
    /// Return blobs as arrays of bytes in place of base64 text.
    BlobArray,
}

impl RqliteQueryParam {
    /// The name under which the parameter is sent.
    pub open spec fn name(&self) -> Seq<char> {
        match self {
            RqliteQueryParam::Pretty => "pretty"@,
            RqliteQueryParam::Timings => "timings"@,
            RqliteQueryParam::Transaction => "transaction"@,
            RqliteQueryParam::Queue => "queue"@,
            RqliteQueryParam::Timeout(_) => "timeout"@,
            RqliteQueryParam::Level(_) => "level"@,
            RqliteQueryParam::Freshness(_) => "freshness"@,
            RqliteQueryParam::FreshnessStrict => "freshness_strict"@,
            RqliteQueryParam::NoRWRandom => "norwrandom"@,
            RqliteQueryParam::Ver(_) => "ver"@,
            RqliteQueryParam::BlobArray => "blob_array"@,
        }
    }

    /// Whether the parameter is a flag: one that is sent as `name=true`.
    pub open spec fn is_flag(&self) -> bool {
        !(self is Timeout || self is Level || self is Freshness || self is Ver)
    }

    /// The value that is sent: `true` for a flag, a number of seconds as
    /// `<count>s`, a level by its name, a version as it is.
    pub open spec fn value(&self) -> Seq<char> {
        match self {
            RqliteQueryParam::Timeout(seconds) => decimal(seconds@) + "s"@,
            RqliteQueryParam::Level(level) => level.text(),
            RqliteQueryParam::Freshness(seconds) => decimal(seconds@) + "s"@,
            RqliteQueryParam::Ver(version) => version@,
            _ => "true"@,
        }
    }

    /// The parameter as it is sent.
    pub fn into_request_query_param(self) -> (param: RequestQueryParam)
        ensures
            param@ == (self.name(), self.value()),
            param is Bool <==> self.is_flag(),
    {
        match self {
            RqliteQueryParam::Pretty => RequestQueryParam::Bool(String::from_str("pretty")),
            RqliteQueryParam::Timings => RequestQueryParam::Bool(String::from_str("timings")),
            RqliteQueryParam::Transaction => RequestQueryParam::Bool(
                String::from_str("transaction"),
            ),
            RqliteQueryParam::Queue => RequestQueryParam::Bool(String::from_str("queue")),
            RqliteQueryParam::Timeout(seconds) => {
                let count = decimal_string(seconds.get() as u64);
                RequestQueryParam::KV(String::from_str("timeout"), join(count.as_str(), "s"))
            },
            RqliteQueryParam::Level(level) => RequestQueryParam::KV(
                String::from_str("level"),
                level.to_string(),
            ),
            RqliteQueryParam::Freshness(seconds) => {
                let count = decimal_string(seconds.get() as u64);
                RequestQueryParam::KV(String::from_str("freshness"), join(count.as_str(), "s"))
            },
            RqliteQueryParam::FreshnessStrict => RequestQueryParam::Bool(
                String::from_str("freshness_strict"),
            ),
            RqliteQueryParam::NoRWRandom => RequestQueryParam::Bool(String::from_str("norwrandom")),
            RqliteQueryParam::Ver(version) => RequestQueryParam::KV(
                String::from_str("ver"),
                version,
            ),
            RqliteQueryParam::BlobArray => RequestQueryParam::Bool(String::from_str("blob_array")),
        }
    }
}

impl View for RqliteQueryParam {
    type V = (Seq<char>, Seq<char>);

    open spec fn view(&self) -> (Seq<char>, Seq<char>) {
        (self.name(), self.value())
    }
}

/// A list of API parameters, built up one by one.
pub struct RqliteQueryParams(pub Vec<RqliteQueryParam>);

impl View for RqliteQueryParams {
    type V = Seq<(Seq<char>, Seq<char>)>;

    /// The pairs of name and value that the parameters are sent as, in order.
    open spec fn view(&self) -> Seq<(Seq<char>, Seq<char>)> {
        self.0@.map_values(|param: RqliteQueryParam| param@)
    }
}

impl From<Vec<RqliteQueryParam>> for RqliteQueryParams {
    /// The parameters of `params`, in their order.
    fn from(params: Vec<RqliteQueryParam>) -> (list: RqliteQueryParams) {
        RqliteQueryParams(params)
    }
}

impl vstd::std_specs::convert::FromSpecImpl<Vec<RqliteQueryParam>> for RqliteQueryParams {
    open spec fn obeys_from_spec() -> bool {
        true
    }

    open spec fn from_spec(params: Vec<RqliteQueryParam>) -> RqliteQueryParams {
        RqliteQueryParams(params)
    }
}

impl From<RqliteQueryParams> for RequestQueryParams {
    /// The parameters as they are sent, in the same order.
    fn from(params: RqliteQueryParams) -> (sent: RequestQueryParams)
        ensures
            sent@ == params@,
            sent.flags() == params.flags(),
    {
        params.into_request_query_params()
    }
}

impl vstd::std_specs::convert::FromSpecImpl<RqliteQueryParams> for RequestQueryParams {
    /// What the conversion returns is stated by its own contract, over the
    /// views.
    open spec fn obeys_from_spec() -> bool {
        false
    }

    open spec fn from_spec(params: RqliteQueryParams) -> RequestQueryParams {
        arbitrary()
    }
}

impl Default for RqliteQueryParams {
    fn default() -> (params: RqliteQueryParams)
        ensures
            params.0@ == Seq::<RqliteQueryParam>::empty(),
            params@ == Seq::<(Seq<char>, Seq<char>)>::empty(),
    {
        RqliteQueryParams::new()
    }
}

impl RqliteQueryParams {
    /// Which of the parameters are flags, in order.
    pub open spec fn flags(&self) -> Seq<bool> {
        self.0@.map_values(|param: RqliteQueryParam| param.is_flag())
    }

    /// No parameters.
    pub fn new() -> (params: RqliteQueryParams)
        ensures
            params.0@ == Seq::<RqliteQueryParam>::empty(),
            params@ == Seq::<(Seq<char>, Seq<char>)>::empty(),
    {
        let params = RqliteQueryParams(Vec::new());
        assert(params@ =~= Seq::<(Seq<char>, Seq<char>)>::empty());
        params
    }

    fn with(self, param: RqliteQueryParam) -> (params: RqliteQueryParams)
        ensures
            params.0@ == self.0@.push(param),
            params@ == self@.push(param@),
    {
        let mut list = self.0;
        list.push(param);
        let params = RqliteQueryParams(list);
        assert(params@ =~= self@.push(param@));
        params
    }

    /// Adds `pretty`.
    pub fn pretty(self) -> (params: RqliteQueryParams)
        ensures
            params.0@ == self.0@.push(RqliteQueryParam::Pretty),
            params@ == self@.push(("pretty"@, "true"@)),
    {
        self.with(RqliteQueryParam::Pretty)
    }

    /// Adds `timings`.
    pub fn timings(self) -> (params: RqliteQueryParams)
        ensures
            params.0@ == self.0@.push(RqliteQueryParam::Timings),
            params@ == self@.push(("timings"@, "true"@)),
    {
        self.with(RqliteQueryParam::Timings)
    }

    /// Adds `transaction`.
    pub fn transaction(self) -> (params: RqliteQueryParams)
        ensures
            params.0@ == self.0@.push(RqliteQueryParam::Transaction),
            params@ == self@.push(("transaction"@, "true"@)),
    {
        self.with(RqliteQueryParam::Transaction)
    }

    /// Adds `queue`.
    pub fn queue(self) -> (params: RqliteQueryParams)
        ensures
            params.0@ == self.0@.push(RqliteQueryParam::Queue),
            params@ == self@.push(("queue"@, "true"@)),
    {
        self.with(RqliteQueryParam::Queue)
    }

    /// Adds `timeout`, in seconds.
    pub fn timeout(self, t: Seconds) -> (params: RqliteQueryParams)
        ensures
            params.0@ == self.0@.push(RqliteQueryParam::Timeout(t)),
            params@ == self@.push(("timeout"@, decimal(t@) + "s"@)),
    {
        self.with(RqliteQueryParam::Timeout(t))
    }

    /// Adds `level`.
    pub fn level(self, l: RqliteFreshnessLevel) -> (params: RqliteQueryParams)
        ensures
            params.0@ == self.0@.push(RqliteQueryParam::Level(l)),
            params@ == self@.push(("level"@, l.text())),
    {
        self.with(RqliteQueryParam::Level(l))
    }

    /// Adds `freshness`, in seconds.
    pub fn freshness(self, f: Seconds) -> (params: RqliteQueryParams)
        ensures
            params.0@ == self.0@.push(RqliteQueryParam::Freshness(f)),
            params@ == self@.push(("freshness"@, decimal(f@) + "s"@)),
    {
        self.with(RqliteQueryParam::Freshness(f))
    }

    /// Adds `freshness_strict`.
    pub fn freshness_strict(self) -> (params: RqliteQueryParams)
        ensures
            params.0@ == self.0@.push(RqliteQueryParam::FreshnessStrict),
            params@ == self@.push(("freshness_strict"@, "true"@)),
    {
        self.with(RqliteQueryParam::FreshnessStrict)
    }

    /// Adds `norwrandom`.
    pub fn norwrandom(self) -> (params: RqliteQueryParams)
        ensures
            params.0@ == self.0@.push(RqliteQueryParam::NoRWRandom),
            params@ == self@.push(("norwrandom"@, "true"@)),
    {
        self.with(RqliteQueryParam::NoRWRandom)
    }

    /// Adds `ver` with the version `v`.
    pub fn ver(self, v: String) -> (params: RqliteQueryParams)
        ensures
            params.0@ == self.0@.push(RqliteQueryParam::Ver(v)),
            params@ == self@.push(("ver"@, v@)),
    {
        self.with(RqliteQueryParam::Ver(v))
    }

    /// Adds `blob_array`.
    pub fn blob_array(self) -> (params: RqliteQueryParams)
        ensures
            params.0@ == self.0@.push(RqliteQueryParam::BlobArray),
            params@ == self@.push(("blob_array"@, "true"@)),
    {
        self.with(RqliteQueryParam::BlobArray)
    }

    /// The parameters as they are sent, in the same order.
    pub fn into_request_query_params(self) -> (params: RequestQueryParams)
        ensures
            params@ == self@,
            params.flags() == self.flags(),
    {
        let given = self.0;
        let ghost all = given@;
        let mut sent: Vec<RequestQueryParam> = Vec::new();
        for param in iter: given
            invariant
                iter.seq() == all,
                sent@.map_values(|param: RequestQueryParam| param@) == all.take(
                    iter.index() as int,
                ).map_values(|param: RqliteQueryParam| param@),
                sent@.map_values(|param: RequestQueryParam| param is Bool) == all.take(
                    iter.index() as int,
                ).map_values(|param: RqliteQueryParam| param.is_flag()),
        {
            let ghost done = sent@;
            let converted = param.into_request_query_param();
            sent.push(converted);
            proof {
                let k = iter.index() as int;
                assert(param == all[k]);
                lemma_map_next(all, |param: RqliteQueryParam| param@, k);
                assert(sent@.map_values(|param: RequestQueryParam| param@) =~= done.map_values(
                    |param: RequestQueryParam| param@,
                ).push(converted@));
                lemma_map_next(all, |param: RqliteQueryParam| param.is_flag(), k);
                assert(sent@.map_values(|param: RequestQueryParam| param is Bool)
                    =~= done.map_values(|param: RequestQueryParam| param is Bool).push(
                    converted is Bool,
                ));
            }
        }
        proof {
            assert(all.take(all.len() as int) =~= all);
        }
        RequestQueryParams(sent)
    }
}

/// A request as the client's operations hand it to the dispatch: everything
/// but the host.
pub struct RequestOptions {
    pub method: Method,
    pub endpoint: String,
    pub body: Option<String>,
    pub params: Option<RequestQueryParams>,
}

/// A request bound to a host, in plain values.
pub struct HttpRequest {
    pub method: Method,
    pub url: String,
    pub body: Option<String>,
    pub query: Option<Vec<(String, String)>>,
}

/// The URL of `endpoint` on `host`: `scheme://host/endpoint`.
pub open spec fn url_of(scheme: Scheme, host: Seq<char>, endpoint: Seq<char>) -> Seq<char> {
    scheme.text() + "://"@ + host + "/"@ + endpoint
}

impl Default for RequestOptions {
    /// A `POST` to `db/request` without body or parameters.
    fn default() -> (options: RequestOptions)
        ensures
            options.method is Post,
            options.endpoint@ == "db/request"@,
            options.body is None,
            options.params is None,
    {
        RequestOptions {
            method: Method::Post,
            endpoint: String::from_str("db/request"),
            body: None,
            params: None,
        }
    }
}

impl RequestOptions {
    /// The request against `host`: the method, the URL `scheme://host/endpoint`,
    /// the body if there is one, and the query if there are parameters.
    pub fn to_reqwest_request(&self, host: &str, scheme: &Scheme) -> (request: HttpRequest)
        ensures
            request.method == self.method,
            request.url@ == url_of(*scheme, host@, self.endpoint@),
            request.body == self.body,
            match self.params {
                Some(params) => request.query is Some && query_pairs(request.query->0@) == params@,
                None => request.query is None,
            },
    {
        let mut url = scheme.to_string();
        url.append("://");
        url.append(host);
        url.append("/");
        url.append(self.endpoint.as_str());
        let body = match &self.body {
            Some(body) => Some(body.clone()),
            None => None,
        };
        let query = match &self.params {
            Some(params) => Some(params.clone().into_reqwest_query()),
            None => None,
        };
        HttpRequest { method: self.method, url, body, query }
    }

    /// Adds the client's default parameters whose name the request does not
    /// set itself.
    pub fn merge_default_query_params(&mut self, default_params: &RequestQueryParams)
        ensures
            final(self).method == old(self).method,
            final(self).endpoint == old(self).endpoint,
            final(self).body == old(self).body,
            final(self).params is Some,
            (final(self).params->0).0@ == match old(self).params {
                Some(params) => merged_list(params.0@, default_params.0@),
                None => default_params.0@,
            },
            final(self).params->0@ == match old(self).params {
                Some(params) => merged(params@, default_params@),
                None => default_params@,
            },
    {
        let defaults = default_params.clone();
        let merged_params = match self.params.take() {
            Some(mut params) => {
                params.merge(defaults);
                params
            },
            None => defaults,
        };
        self.params = Some(merged_params);
    }
}

} // verus!
