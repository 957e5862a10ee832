//! Statements: which operation one is, and how it is written into the body
//! of a request.

use vstd::prelude::*;
use vstd::string::*;
use crate::error::QueryBuilderError;
use crate::text::{decimal, decimal_string, join, lemma_map_next, same_text};

pub mod arguments;

pub use arguments::{RqliteArgument, RqliteArgumentRaw};

verus! {

/// The operation that a statement begins with.
#[derive(Debug, PartialEq, Eq, Clone, Copy, Structural)]
pub enum Operation {
    Create,
    Select,
    Update,
    Delete,
    Insert,
    Pragma,
    Drop,
}

/// `text` in lower case, as `str::to_lowercase` writes it.
pub uninterp spec fn lowercase(text: Seq<char>) -> Seq<char>;

/// Calls `str::to_lowercase`, which returns the lowercase equivalent of the
/// string as a new `String`.
#[verifier::external_body]
fn to_lowercase(text: &str) -> (lowered: String)
    ensures
        lowered@ == lowercase(text@),
{
    text.to_lowercase()
}

/// Whether `text` begins with `prefix`.
pub fn starts_with(text: &str, prefix: &str) -> (found: bool)
    ensures
        found == prefix@.is_prefix_of(text@),
{
    let wanted = prefix.unicode_len();
    if text.unicode_len() < wanted {
        false
    } else {
        same_text(text.substring_char(0, wanted), prefix)
    }
}

/// The operation whose keyword `lowered` begins with. The keywords are tried
/// in the order create, select, update, delete, insert, pragma, drop.
pub open spec fn operation_of(lowered: Seq<char>) -> Option<Operation> {
    if "create"@.is_prefix_of(lowered) {
        Some(Operation::Create)
    } else if "select"@.is_prefix_of(lowered) {
        Some(Operation::Select)
    } else if "update"@.is_prefix_of(lowered) {
        Some(Operation::Update)
    } else if "delete"@.is_prefix_of(lowered) {
        Some(Operation::Delete)
    } else if "insert"@.is_prefix_of(lowered) {
        Some(Operation::Insert)
    } else if "pragma"@.is_prefix_of(lowered) {
        Some(Operation::Pragma)
    } else if "drop"@.is_prefix_of(lowered) {
        Some(Operation::Drop)
    } else {
        None
    }
}

impl Operation {
    /// The operation of a statement that is in lower case already.
    pub fn from_lowercase(lowered: &str) -> (operation: Option<Operation>)
        ensures
            operation == operation_of(lowered@),
    {
        if starts_with(lowered, "create") {
            Some(Operation::Create)
        } else if starts_with(lowered, "select") {
            Some(Operation::Select)
        } else if starts_with(lowered, "update") {
            Some(Operation::Update)
        } else if starts_with(lowered, "delete") {
            Some(Operation::Delete)
        } else if starts_with(lowered, "insert") {
            Some(Operation::Insert)
        } else if starts_with(lowered, "pragma") {
            Some(Operation::Pragma)
        } else if starts_with(lowered, "drop") {
            Some(Operation::Drop)
        } else {
            None
        }
    }

    /// The operation of a statement, whatever the case of its keyword. A
    /// statement that begins with no known keyword is refused, and handed
    /// back in the error.
    pub fn from_query_string(query: &str) -> (operation: Result<Operation, QueryBuilderError>)
        ensures
            match operation_of(lowercase(query@)) {
                Some(found) => operation == Ok::<Operation, QueryBuilderError>(found),
                None => operation matches Err(QueryBuilderError::InvalidOperation(text)) && text@
                    == query@,
            },
    {
        let lowered = to_lowercase(query);
        match Operation::from_lowercase(lowered.as_str()) {
            Some(operation) => Ok(operation),
            None => Err(QueryBuilderError::InvalidOperation(query.to_owned())),
        }
    }

    /// Whether the operation reads: `SELECT` and `PRAGMA` do, the others
    /// write.
    pub open spec fn reads(self) -> bool {
        self is Select || self is Pragma
    }
}

/// A statement with its arguments.
#[derive(Debug)]
pub struct RqliteQuery {
    pub query: String,
    pub args: Vec<RqliteArgument>,
    pub op: Operation,
}

impl TryInto<RqliteQuery> for &str {
    type Error = QueryBuilderError;

    /// A query without arguments, if the statement begins with a known
    /// operation. A statement that begins with none is handed back in the
    /// error.
    fn try_into(self) -> (made: Result<RqliteQuery, QueryBuilderError>)
        ensures
            ({
                let made: Result<RqliteQuery, QueryBuilderError> = made;
                match operation_of(lowercase(self@)) {
                    Some(operation) => made matches Ok(query) && query.query@ == self@
                        && query.args@.len() == 0 && query.op == operation,
                    None => made matches Err(QueryBuilderError::InvalidOperation(text)) && text@
                        == self@,
                }
            }),
    {
        RqliteQuery::try_from_str(self)
    }
}

impl vstd::std_specs::convert::TryIntoSpecImpl<RqliteQuery> for &str {
    /// What the conversion returns is stated by the contract of `try_into`.
    open spec fn obeys_try_into_spec() -> bool {
        false
    }

    open spec fn try_into_spec(self) -> Result<RqliteQuery, QueryBuilderError> {
        arbitrary()
    }
}

impl TryInto<RqliteQuery> for String {
    type Error = QueryBuilderError;

    /// A query without arguments, if the statement begins with a known
    /// operation. A statement that begins with none is handed back in the
    /// error.
    fn try_into(self) -> (made: Result<RqliteQuery, QueryBuilderError>)
        ensures
            ({
                let made: Result<RqliteQuery, QueryBuilderError> = made;
                match operation_of(lowercase(self@)) {
                    Some(operation) => made matches Ok(query) && query.query@ == self@
                        && query.args@.len() == 0 && query.op == operation,
                    None => made matches Err(QueryBuilderError::InvalidOperation(text)) && text@
                        == self@,
                }
            }),
    {
        RqliteQuery::try_from_str(self.as_str())
    }
}

impl vstd::std_specs::convert::TryIntoSpecImpl<RqliteQuery> for String {
    /// What the conversion returns is stated by the contract of `try_into`.
    open spec fn obeys_try_into_spec() -> bool {
        false
    }

    open spec fn try_into_spec(self) -> Result<RqliteQuery, QueryBuilderError> {
        arbitrary()
    }
}

impl TryInto<RqliteQuery> for Result<RqliteQuery, QueryBuilderError> {
    type Error = QueryBuilderError;

    /// The query, or the error, as it is.
    fn try_into(self) -> Result<RqliteQuery, QueryBuilderError> {
        self
    }
}

impl vstd::std_specs::convert::TryIntoSpecImpl<RqliteQuery> for Result<RqliteQuery, QueryBuilderError> {
    open spec fn obeys_try_into_spec() -> bool {
        true
    }

    open spec fn try_into_spec(self) -> Result<RqliteQuery, QueryBuilderError> {
        self
    }
}

/// The number of placeholders, written `?`, in `text`.
pub open spec fn placeholder_count(text: Seq<char>) -> nat
    decreases text.len(),
{
    if text.len() == 0 {
        0
    } else if text.last() == '?' {
        placeholder_count(text.drop_last()) + 1
    } else {
        placeholder_count(text.drop_last())
    }
}

/// Counts the placeholders of a statement.
pub fn count_placeholders(query: &str) -> (count: usize)
    ensures
        count == placeholder_count(query@),
{
    let len = query.unicode_len();
    let mut count: usize = 0;
    assert(query@.take(0) =~= Seq::<char>::empty());
    for c in iter: query.chars()
        invariant
            iter.seq() == query@,
            len == query@.len(),
            count <= iter.index(),
            count == placeholder_count(query@.take(iter.index() as int)),
    {
        proof {
            let k = iter.index() as int;
            assert(query@.take(k + 1).drop_last() =~= query@.take(k));
            assert(query@.take(k + 1).last() == c);
        }
        if c == '?' {
            count += 1;
        }
    }
    assert(query@.take(len as int) =~= query@);
    count
}

/// Makes a query of a statement and its arguments.
///
/// The statement must begin with a known operation. When arguments are
/// given, there must be as many as the statement has placeholders; without
/// arguments the placeholders are not counted.
pub fn query(statement: &str, args: Vec<RqliteArgument>) -> (made: Result<
    RqliteQuery,
    QueryBuilderError,
>)
    ensures
        match operation_of(lowercase(statement@)) {
            None => made matches Err(QueryBuilderError::InvalidQuery(text)) && text@ == statement@,
            Some(operation) => {
                if args@.len() == 0 || args@.len() == placeholder_count(statement@) {
                    made matches Ok(query) && query.query@ == statement@ && query.args == args
                        && query.op == operation
                } else {
                    made matches Err(QueryBuilderError::InvalidArgumentCount(expected, given))
                        && expected == placeholder_count(statement@) && given == args@.len()
                }
            },
        },
{
    let op = match Operation::from_query_string(statement) {
        Ok(op) => op,
        Err(_) => {
            return Err(QueryBuilderError::InvalidQuery(statement.to_owned()));
        },
    };
    if args.len() > 0 {
        let param_count = count_placeholders(statement);
        let argc = args.len();
        if argc != param_count {
            return Err(QueryBuilderError::InvalidArgumentCount(param_count, argc));
        }
    }
    Ok(RqliteQuery { query: statement.to_owned(), args, op })
}

impl RqliteQuery {
    /// A query without arguments, of a statement that begins with a known
    /// operation.
    pub fn try_from_str(statement: &str) -> (made: Result<RqliteQuery, QueryBuilderError>)
        ensures
            match operation_of(lowercase(statement@)) {
                Some(operation) => made matches Ok(query) && query.query@ == statement@
                    && query.args@.len() == 0 && query.op == operation,
                None => made matches Err(QueryBuilderError::InvalidOperation(text)) && text@
                    == statement@,
            },
    {
        match Operation::from_query_string(statement) {
            Ok(op) => Ok(RqliteQuery { query: statement.to_owned(), args: Vec::new(), op }),
            Err(error) => Err(error),
        }
    }

    /// The path that the query is sent to: `db/query` for a statement that
    /// reads, `db/execute` for one that writes.
    pub fn endpoint(&self) -> (path: String)
        ensures
            path@ == if self.op.reads() {
                "db/query"@
            } else {
                "db/execute"@
            },
    {
        let resource = match self.op {
            Operation::Create
            | Operation::Update
            | Operation::Delete
            | Operation::Insert
            | Operation::Drop => "db/execute",
            Operation::Select | Operation::Pragma => "db/query",
        };
        String::from_str(resource)
    }
}

/// What `serde_json` makes of `text`: the JSON string that holds it, quoted
/// and escaped, or nothing where `serde_json` refuses the text.
pub uninterp spec fn json_encoding(text: Seq<char>) -> Option<Seq<char>>;

/// Calls `serde_json::to_string` on a string. What comes back depends on the
/// text alone: the JSON string that holds the text, or an error. That the
/// call succeeds is not claimed.
#[verifier::external_body]
fn json_encode_str(text: &str) -> (encoded: Result<String, serde_json::Error>)
    ensures
        match encoded {
            Ok(json) => json_encoding(text@) == Some(json@),
            Err(_) => json_encoding(text@) is None,
        },
{
    serde_json::to_string(text)
}

/// `text` as a JSON string, quoted and escaped as `serde_json` writes it.
pub open spec fn json_string(text: Seq<char>) -> Seq<char> {
    json_encoding(text)->0
}

/// Whether the argument can be written as JSON: a string can where
/// `serde_json` accepts it, anything else always.
pub open spec fn is_writable(argument: RqliteArgument) -> bool {
    argument matches RqliteArgument::String(text) ==> json_encoding(text@) is Some
}

/// Whether every argument of every statement can be written as JSON.
pub open spec fn all_writable(statements: Seq<Seq<RqliteArgument>>) -> bool {
    forall|i: int, j: int|
        0 <= i < statements.len() && 0 <= j < statements[i].len() ==> is_writable(
            #[trigger] statements[i][j],
        )
}

/// `number` in decimal, with a minus sign when it is negative.
pub open spec fn integer_text(number: int) -> Seq<char> {
    if number < 0 {
        "-"@ + decimal((-number) as nat)
    } else {
        decimal(number as nat)
    }
}

/// Writes `number` as a JSON number.
pub fn integer_string(number: i64) -> (text: String)
    ensures
        text@ == integer_text(number as int),
{
    if number < 0 {
        let magnitude: u64 = ((-(number + 1)) as u64) + 1;
        let digits = decimal_string(magnitude);
        join("-", digits.as_str())
    } else {
        decimal_string(number as u64)
    }
}

/// `parts` one after the other, with `separator` between each two.
pub open spec fn separated(parts: Seq<Seq<char>>, separator: Seq<char>) -> Seq<char>
    decreases parts.len(),
{
    if parts.len() == 0 {
        Seq::<char>::empty()
    } else if parts.len() == 1 {
        parts[0]
    } else {
        separated(parts.drop_last(), separator) + separator + parts.last()
    }
}

/// The JSON array of `items`, each of which is JSON already.
pub open spec fn json_array(items: Seq<Seq<char>>) -> Seq<char> {
    "["@ + separated(items, ","@) + "]"@
}

/// The JSON that stands for an argument: a string quoted and escaped, a
/// number in decimal, a floating-point number as it is held, `true`,
/// `false` or `null`.
pub open spec fn argument_json(argument: RqliteArgument) -> Seq<char> {
    match argument {
        RqliteArgument::String(text) => json_string(text@),
        RqliteArgument::I64(number) => integer_text(number as int),
        RqliteArgument::F64(number) => number@,
        RqliteArgument::F32(number) => number@,
        RqliteArgument::Bool(flag) => if flag {
            "true"@
        } else {
            "false"@
        },
        RqliteArgument::Null => "null"@,
    }
}

/// The texts of a list of texts.
pub open spec fn texts(items: Seq<String>) -> Seq<Seq<char>> {
    items.map_values(|item: String| item@)
}

/// Writes the JSON array of `items`, each of which is JSON already.
pub fn frame_array(items: &Vec<String>) -> (json: String)
    ensures
        json@ == json_array(texts(items@)),
{
    let mut json = String::from_str("[");
    let mut i: usize = 0;
    let ghost all = texts(items@);
    assert(all.take(0) =~= Seq::<Seq<char>>::empty());
    while i < items.len()
        invariant
            i <= items.len(),
            all == texts(items@),
            json@ == "["@ + separated(all.take(i as int), ","@),
        decreases items.len() - i,
    {
        let ghost before = json@;
        if i > 0 {
            json.append(",");
        }
        json.append(items[i].as_str());
        proof {
            let done = all.take(i as int);
            let next = all.take(i + 1);
            assert(next.drop_last() =~= done);
            assert(next.last() == items@[i as int]@);
            if i == 0 {
                assert(separated(done, ","@) =~= Seq::<char>::empty());
                assert(json@ =~= "["@ + separated(next, ","@));
            } else {
                assert(json@ =~= "["@ + separated(next, ","@));
            }
        }
        i += 1;
    }
    assert(all.take(items@.len() as int) =~= all);
    json.append("]");
    json
}

/// The statements of a request's body with their arguments: one list for
/// each statement, the statement first and its arguments after it.
#[derive(Debug)]
pub struct QueryArgs(pub Vec<Vec<RqliteArgument>>);

/// The list that stands for a query: its statement, then its arguments.
pub open spec fn components_of(query: RqliteQuery) -> Seq<RqliteArgument> {
    seq![RqliteArgument::String(query.query)] + query.args@
}

/// The JSON of one statement with its arguments.
pub open spec fn statement_json(components: Seq<RqliteArgument>) -> Seq<char> {
    json_array(components.map_values(|argument: RqliteArgument| argument_json(argument)))
}

/// The JSON of a request's body: an array with one array for each
/// statement.
pub open spec fn body_json(statements: Seq<Seq<RqliteArgument>>) -> Seq<char> {
    json_array(statements.map_values(|components: Seq<RqliteArgument>| statement_json(components)))
}

/// The lists of a body, as the contracts see them.
pub open spec fn statements_of(lists: Seq<Vec<RqliteArgument>>) -> Seq<Seq<RqliteArgument>> {
    lists.map_values(|list: Vec<RqliteArgument>| list@)
}

impl RqliteArgument {
    /// Writes the argument as JSON. It fails if and only if the argument is
    /// a string that `serde_json` refuses.
    pub fn to_json(&self) -> (json: Result<String, serde_json::Error>)
        ensures
            json is Ok <==> is_writable(*self),
            json matches Ok(text) ==> text@ == argument_json(*self),
    {
        match self {
            RqliteArgument::String(text) => json_encode_str(text.as_str()),
            RqliteArgument::I64(number) => Ok(integer_string(*number)),
            RqliteArgument::F64(number) => Ok(number.clone()),
            RqliteArgument::F32(number) => Ok(number.clone()),
            RqliteArgument::Bool(flag) => Ok(
                String::from_str(
                    if *flag {
                        "true"
                    } else {
                        "false"
                    },
                ),
            ),
            RqliteArgument::Null => Ok(String::from_str("null")),
        }
    }
}

impl QueryArgs {
    fn components(query: RqliteQuery) -> (components: Vec<RqliteArgument>)
        ensures
            components@ == components_of(query),
    {
        let RqliteQuery { query: statement, args, op: _ } = query;
        let mut components: Vec<RqliteArgument> = Vec::new();
        components.push(RqliteArgument::String(statement));
        let mut rest = args;
        components.append(&mut rest);
        assert(components@ =~= components_of(query));
        components
    }

    /// The body of a request with the one statement of `query`.
    pub fn from_query(query: RqliteQuery) -> (body: QueryArgs)
        ensures
            statements_of(body.0@) == seq![components_of(query)],
    {
        let mut lists: Vec<Vec<RqliteArgument>> = Vec::new();
        lists.push(Self::components(query));
        assert(statements_of(lists@) =~= seq![components_of(query)]);
        QueryArgs(lists)
    }

    /// The body of a request with the statements of `queries`, in order.
    pub fn from_queries(queries: Vec<RqliteQuery>) -> (body: QueryArgs)
        ensures
            statements_of(body.0@) == queries@.map_values(
                |query: RqliteQuery| components_of(query),
            ),
    {
        let ghost all = queries@;
        let mut lists: Vec<Vec<RqliteArgument>> = Vec::new();
        for query in iter: queries
            invariant
                iter.seq() == all,
                statements_of(lists@) == all.take(iter.index() as int).map_values(
                    |query: RqliteQuery| components_of(query),
                ),
        {
            let ghost done = lists@;
            let components = Self::components(query);
            lists.push(components);
            proof {
                let k = iter.index() as int;
                assert(query == all[k]);
                lemma_map_next(all, |query: RqliteQuery| components_of(query), k);
                assert(statements_of(lists@) =~= statements_of(done).push(components@));
            }
        }
        proof {
            assert(all.take(all.len() as int) =~= all);
        }
        QueryArgs(lists)
    }

    /// Writes the body as JSON: an array of arrays, each holding a statement
    /// and its arguments. It fails if and only if one of them is a string
    /// that `serde_json` refuses, with the error of the first such string.
    pub fn to_json(&self) -> (json: Result<String, serde_json::Error>)
        ensures
            json is Ok <==> all_writable(statements_of(self.0@)),
            json matches Ok(text) ==> text@ == body_json(statements_of(self.0@)),
    {
        let mut statements: Vec<String> = Vec::new();
        let ghost lists = statements_of(self.0@);
        let ghost of_argument = |argument: RqliteArgument| argument_json(argument);
        let ghost of_statement = |components: Seq<RqliteArgument>| statement_json(components);
        let mut i: usize = 0;
        assert(texts(statements@) =~= lists.take(0).map_values(of_statement));
        while i < self.0.len()
            invariant
                i <= self.0.len(),
                lists == statements_of(self.0@),
                of_argument == |argument: RqliteArgument| argument_json(argument),
                of_statement == |components: Seq<RqliteArgument>| statement_json(components),
                texts(statements@) == lists.take(i as int).map_values(of_statement),
                forall|done: int, j: int|
                    0 <= done < i && 0 <= j < lists[done].len() ==> is_writable(
                        #[trigger] lists[done][j],
                    ),
            decreases self.0.len() - i,
        {
            let list = &self.0[i];
            let mut encoded: Vec<String> = Vec::new();
            let mut j: usize = 0;
            assert(texts(encoded@) =~= list@.take(0).map_values(of_argument));
            while j < list.len()
                invariant
                    j <= list.len(),
                    lists == statements_of(self.0@),
                    i < lists.len(),
                    lists[i as int] == list@,
                    of_argument == |argument: RqliteArgument| argument_json(argument),
                    texts(encoded@) == list@.take(j as int).map_values(of_argument),
                    forall|at: int| 0 <= at < j ==> is_writable(#[trigger] list@[at]),
                decreases list.len() - j,
            {
                let ghost before = encoded@;
                let text = match list[j].to_json() {
                    Ok(text) => text,
                    Err(error) => {
                        proof {
                            assert(!is_writable(lists[i as int][j as int]));
                        }
                        return Err(error);
                    },
                };
                encoded.push(text);
                proof {
                    lemma_map_next(list@, of_argument, j as int);
                    assert(texts(encoded@) =~= texts(before).push(text@));
                }
                j += 1;
            }
            assert(list@.take(list@.len() as int) =~= list@);
            let ghost before = statements@;
            let statement = frame_array(&encoded);
            statements.push(statement);
            proof {
                lemma_map_next(lists, of_statement, i as int);
                assert(lists[i as int] == list@);
                assert(texts(statements@) =~= texts(before).push(statement@));
            }
            i += 1;
        }
        assert(lists.take(lists.len() as int) =~= lists);
        let json = frame_array(&statements);
        assert(json@ == body_json(lists));
        Ok(json)
    }
}

impl RqliteQuery {
    /// Writes the query as the body of a request: an array that holds the
    /// one array of the statement and its arguments. It fails if and only
    /// if the statement or one of the arguments is a string that
    /// `serde_json` refuses.
    pub fn into_json(self) -> (json: Result<String, serde_json::Error>)
        ensures
            json is Ok <==> all_writable(seq![components_of(self)]),
            json matches Ok(text) ==> text@ == body_json(seq![components_of(self)]),
    {
        let body = QueryArgs::from_query(self);
        body.to_json()
    }
}

} // verus!
