//! The indexer that mirrors the contract's events into two tables (the
//! messages with their counts, and the votes), serves the messages, and
//! prepares the contract calls that a client wants simulated.
use crate::encoding::{hex_decode, hex_decoded, hex_encode, hex_lower, utf8_text};
use crate::events::{topic_name, EventKind};
use crate::laws::law_served_row;
use vstd::prelude::*;
use vstd::utf8::{decode_utf8, valid_utf8};

verus! {

/// The contract whose events are indexed.
pub const CONTRACT_ADDRESS: [u8; 32] = [
    170, 178, 66, 162, 68, 36, 204, 199, 241, 161, 43, 240, 181, 33, 7, 193, 248, 103, 27, 207,
    224, 172, 100, 77, 95, 248, 77, 100, 104, 251, 134, 197,
];

/// A row of the messages table: who posted, the hash, the text, the count.
#[derive(Clone, Debug)]
pub struct Feedback {
    pub source: String,
    pub hash: Vec<u8>,
    pub text: Vec<u8>,
    pub votes: i32,
}

/// A row of the votes table: who voted, and the direction recorded.
#[derive(Clone, Debug)]
pub struct Vote {
    pub source: String,
    pub upvote: bool,
}

/// A message as served to clients: the poster's strkey, the hash in
/// lower-case hexadecimal, the text, the count.
#[derive(Clone, Debug)]
pub struct FeedbackHttp {
    pub from: String,
    pub hash: String,
    pub text: String,
    pub votes: i32,
}

/// A request to simulate posting a message.
#[derive(Clone, Debug)]
pub struct SimulateSend {
    pub from: String,
    pub sequence: i64,
    pub message: String,
}

/// A request to simulate a vote on the message whose hash is given in
/// hexadecimal.
#[derive(Clone, Debug)]
pub struct SimulateVote {
    pub from: String,
    pub sequence: i64,
    pub hash: String,
    pub upvote: bool,
}

/// A request for a simulated contract call.
#[derive(Clone, Debug)]
pub enum SimulationRequest {
    Send(SimulateSend),
    Vote(SimulateVote),
}

/// One thing to do for an indexed event, in order.
#[derive(Clone, Copy, Debug, PartialEq, Eq, Structural)]
pub enum IndexStep {
    /// Insert a messages row for the event's poster, hash and text, with
    /// this count.
    RecordFeedback { votes: i32 },
    /// Insert a votes row for the event's voter, with this flag. The indexer
    /// records every vote, a downvote too, with the flag `true`.
    RecordVote { upvote: bool },
    /// Add one to (or take one from) the count of the event's hash.
    AdjustVotes { upvote: bool },
}

/// The kind of event that a first topic announces.
pub open spec fn kind_of_topic(topic: Seq<char>) -> Option<EventKind> {
    if topic == topic_name(EventKind::Feedback) {
        Some(EventKind::Feedback)
    } else if topic == topic_name(EventKind::Upvote) {
        Some(EventKind::Upvote)
    } else if topic == topic_name(EventKind::Downvote) {
        Some(EventKind::Downvote)
    } else {
        None
    }
}

/// What the indexer does for an event of the given contract and first topic:
/// nothing for another contract or an unknown topic; a messages row with one
/// vote for a new message; a votes row and a count change for a vote. The
/// votes row of a downvote carries `upvote: true`, as that of an upvote: the
/// row records that a vote was cast, not its direction, which the count
/// change carries.
pub open spec fn planned_steps(contract: Seq<u8>, topic: Seq<char>) -> Seq<IndexStep> {
    if contract != CONTRACT_ADDRESS@ {
        Seq::empty()
    } else {
        match kind_of_topic(topic) {
            Some(EventKind::Feedback) => seq![IndexStep::RecordFeedback { votes: 1 }],
            Some(EventKind::Upvote) => seq![
                IndexStep::RecordVote { upvote: true },
                IndexStep::AdjustVotes { upvote: true },
            ],
            Some(EventKind::Downvote) => seq![
                IndexStep::AdjustVotes { upvote: false },
                IndexStep::RecordVote { upvote: true },
            ],
            None => Seq::empty(),
        }
    }
}

/// Whether `contract` is the indexed contract.
pub fn is_indexed_contract(contract: &[u8; 32]) -> (same: bool)
    ensures
        same == (contract@ == CONTRACT_ADDRESS@),
{
    let mut i: usize = 0;
    while i < 32
        invariant
            0 <= i <= 32,
            contract@.len() == 32,
            CONTRACT_ADDRESS@.len() == 32,
            forall|j: int| 0 <= j < i ==> contract@[j] == CONTRACT_ADDRESS@[j],
        decreases 32 - i,
    {
        if contract[i] != CONTRACT_ADDRESS[i] {
            assert(contract@[i as int] != CONTRACT_ADDRESS@[i as int]);
            return false;
        }
        i = i + 1;
    }
    assert(contract@ =~= CONTRACT_ADDRESS@);
    true
}

/// The kind of event that a first topic announces.
pub fn classify_topic(topic: &String) -> (kind: Option<EventKind>)
    ensures
        kind == kind_of_topic(topic@),
{
    let feedback = EventKind::Feedback.topic().to_owned();
    let upvote = EventKind::Upvote.topic().to_owned();
    let downvote = EventKind::Downvote.topic().to_owned();
    if *topic == feedback {
        Some(EventKind::Feedback)
    } else if *topic == upvote {
        Some(EventKind::Upvote)
    } else if *topic == downvote {
        Some(EventKind::Downvote)
    } else {
        None
    }
}

/// What to do for an event of the given contract and first topic.
pub fn index_steps(contract: &[u8; 32], topic: &String) -> (steps: Vec<IndexStep>)
    ensures
        steps@ == planned_steps(contract@, topic@),
{
    let mut steps: Vec<IndexStep> = Vec::new();
    if !is_indexed_contract(contract) {
        return steps;
    }
    match classify_topic(topic) {
        Some(EventKind::Feedback) => {
            steps.push(IndexStep::RecordFeedback { votes: 1 });
        },
        Some(EventKind::Upvote) => {
            steps.push(IndexStep::RecordVote { upvote: true });
            steps.push(IndexStep::AdjustVotes { upvote: true });
        },
        Some(EventKind::Downvote) => {
            steps.push(IndexStep::AdjustVotes { upvote: false });
            steps.push(IndexStep::RecordVote { upvote: true });
        },
        None => {},
    }
    assert(steps@ =~= planned_steps(contract@, topic@));
    steps
}

/// The change of a count by one vote.
pub open spec fn vote_delta(upvote: bool) -> int {
    if upvote {
        1
    } else {
        -1
    }
}

/// Row `k` is the first row of `rows` with the given hash.
pub open spec fn first_match(rows: Seq<Feedback>, hash: Seq<u8>, k: int) -> bool {
    &&& 0 <= k < rows.len()
    &&& rows[k].hash@ == hash
    &&& forall|j: int| 0 <= j < k ==> rows[j].hash@ != hash
}

/// No row of `rows` has the given hash.
pub open spec fn no_match(rows: Seq<Feedback>, hash: Seq<u8>) -> bool {
    forall|j: int| 0 <= j < rows.len() ==> rows[j].hash@ != hash
}

/// Where a vote on `hash` keeps the count of the first matching row within
/// `i32`.
pub open spec fn update_defined(rows: Seq<Feedback>, hash: Seq<u8>, upvote: bool) -> bool {
    forall|k: int| #[trigger] first_match(rows, hash, k) ==> i32::MIN <= rows[k].votes + vote_delta(upvote) <= i32::MAX
}

/// `updated` is `row` with its count changed by one vote.
pub open spec fn voted_row(row: Feedback, updated: Feedback, upvote: bool) -> bool {
    &&& updated.source@ == row.source@
    &&& updated.hash@ == row.hash@
    &&& updated.text@ == row.text@
    &&& updated.votes == row.votes + vote_delta(upvote)
}

/// The text shown for a message whose bytes are not UTF-8.
pub open spec fn invalid_text() -> Seq<char> {
    seq!['I', 'n', 'v', 'a', 'l', 'i', 'd', ' ', 't', 'e', 'x', 't']
}

/// How a messages row is served: the text decoded from UTF-8, or
/// `Invalid text` when the bytes are not UTF-8.
pub open spec fn served_as(row: Feedback, http: FeedbackHttp) -> bool {
    &&& http.from@ == row.source@
    &&& http.hash@ == hex_lower(row.hash@)
    &&& http.text@ == if valid_utf8(row.text@) {
        decode_utf8(row.text@)
    } else {
        invalid_text()
    }
    &&& http.votes == row.votes
}

/// Whether two byte strings are equal.
fn same_bytes(a: &[u8], b: &[u8]) -> (same: bool)
    ensures
        same == (a@ == b@),
{
    if a.len() != b.len() {
        return false;
    }
    let mut i: usize = 0;
    while i < a.len()
        invariant
            0 <= i <= a.len(),
            a@.len() == b@.len(),
            forall|j: int| 0 <= j < i ==> a@[j] == b@[j],
        decreases a.len() - i,
    {
        if a[i] != b[i] {
            assert(a@[i as int] != b@[i as int]);
            return false;
        }
        i = i + 1;
    }
    assert(a@ =~= b@);
    true
}

/// The position of the first row with the given hash.
pub fn find_feedback(rows: &Vec<Feedback>, hash: &Vec<u8>) -> (found: Option<usize>)
    ensures
        match found {
            Some(k) => first_match(rows@, hash@, k as int),
            None => no_match(rows@, hash@),
        },
{
    let mut i: usize = 0;
    while i < rows.len()
        invariant
            0 <= i <= rows@.len(),
            forall|j: int| 0 <= j < i ==> rows@[j].hash@ != hash@,
        decreases rows@.len() - i,
    {
        if same_bytes(rows[i].hash.as_slice(), hash.as_slice()) {
            return Some(i);
        }
        i = i + 1;
    }
    None
}

/// A count changed by one vote.
pub fn adjusted_votes(votes: i32, upvote: bool) -> (adjusted: i32)
    requires
        i32::MIN <= votes + vote_delta(upvote) <= i32::MAX,
    ensures
        adjusted == votes + vote_delta(upvote),
{
    if upvote {
        votes + 1
    } else {
        votes - 1
    }
}

/// The first row with the given hash, with its count changed by one vote, or
/// `None` when no row has that hash.
pub fn update_feedback(rows: &Vec<Feedback>, hash: &Vec<u8>, upvote: bool) -> (updated: Option<Feedback>)
    requires
        update_defined(rows@, hash@, upvote),
    ensures
        updated is None <==> no_match(rows@, hash@),
        forall|k: int| #[trigger] first_match(rows@, hash@, k) ==> (updated matches Some(row) && voted_row(rows@[k], row, upvote)),
{
    match find_feedback(rows, hash) {
        None => None,
        Some(k) => {
            let row = &rows[k];
            assert(first_match(rows@, hash@, k as int));
            let votes = adjusted_votes(row.votes, upvote);
            let updated = Feedback {
                source: row.source.clone(),
                hash: row.hash.clone(),
                text: row.text.clone(),
                votes,
            };
            assert forall|j: int| #[trigger] first_match(rows@, hash@, j) implies j == k by {
                if j < k {
                    assert(rows@[j].hash@ != hash@);
                } else if j > k {
                    assert(rows@[k as int].hash@ != hash@);
                }
            }
            Some(updated)
        },
    }
}

/// A messages row as served to clients.
pub fn feedback_http(row: &Feedback) -> (http: FeedbackHttp)
    ensures
        served_as(*row, http),
        http.from@ == row.source@,
        http.votes == row.votes,
        hex_decoded(http.hash@) == Some(row.hash@),
        valid_utf8(row.text@) ==> http.text@ == decode_utf8(row.text@),
        !valid_utf8(row.text@) ==> http.text@ == seq!['I', 'n', 'v', 'a', 'l', 'i', 'd', ' ', 't', 'e', 'x', 't'],
{
    let text = match utf8_text(row.text.as_slice()) {
        Some(text) => text,
        None => {
            let fallback = "Invalid text";
            proof {
                reveal_strlit("Invalid text");
                assert(fallback@ =~= invalid_text());
            }
            fallback.to_owned()
        },
    };
    let http = FeedbackHttp { from: row.source.clone(), hash: hex_encode(row.hash.as_slice()), text, votes: row.votes };
    proof {
        law_served_row(*row, http);
    }
    http
}

/// All messages rows as served to clients, in order.
pub fn feedbacks(rows: &Vec<Feedback>) -> (served: Vec<FeedbackHttp>)
    ensures
        served@.len() == rows@.len(),
        forall|i: int| 0 <= i < rows@.len() ==> served_as(rows@[i], #[trigger] served@[i]),
        forall|i: int|
            0 <= i < rows@.len() && valid_utf8(rows@[i].text@) ==> (#[trigger] served@[i]).text@ == decode_utf8(
                rows@[i].text@,
            ),
{
    let mut served: Vec<FeedbackHttp> = Vec::new();
    let mut i: usize = 0;
    while i < rows.len()
        invariant
            0 <= i <= rows@.len(),
            served@.len() == i,
            forall|j: int| 0 <= j < i ==> served_as(rows@[j], #[trigger] served@[j]),
            forall|j: int|
                0 <= j < i && valid_utf8(rows@[j].text@) ==> (#[trigger] served@[j]).text@ == decode_utf8(
                    rows@[j].text@,
                ),
        decreases rows@.len() - i,
    {
        served.push(feedback_http(&rows[i]));
        i = i + 1;
    }
    served
}

/// The arguments of a simulated contract call besides the caller.
#[derive(Clone, Debug)]
pub enum CallArgs {
    /// `send(from, message)`, with the message's UTF-8 bytes.
    Send { message: String },
    /// `upvote(from, hash)` or `downvote(from, hash)`.
    Vote { hash: [u8; 32] },
}

/// A contract call to simulate: who calls, at which account sequence, which
/// contract function, with what.
#[derive(Clone, Debug)]
pub struct SimulationCall {
    pub from: String,
    pub sequence: i64,
    pub function: String,
    pub args: CallArgs,
}

/// The name of the contract function that posts a message.
pub open spec fn send_function() -> Seq<char> {
    seq!['s', 'e', 'n', 'd']
}

/// The name of the contract function that casts a vote.
pub open spec fn vote_function(upvote: bool) -> Seq<char> {
    if upvote {
        seq!['u', 'p', 'v', 'o', 't', 'e']
    } else {
        seq!['d', 'o', 'w', 'n', 'v', 'o', 't', 'e']
    }
}

/// The call that a request asks to simulate: `None` exactly when a vote's
/// hash is not the hexadecimal spelling of 32 bytes.
pub open spec fn call_for(request: SimulationRequest, call: Option<SimulationCall>) -> bool {
    match request {
        SimulationRequest::Send(send) => {
            &&& call matches Some(c)
            &&& c.from@ == send.from@
            &&& c.sequence == send.sequence
            &&& c.function@ == send_function()
            &&& c.args matches CallArgs::Send { message }
            &&& message@ == send.message@
        },
        SimulationRequest::Vote(vote) => {
            match hex_decoded(vote.hash@) {
                Some(bytes) if bytes.len() == 32 => {
                    &&& call matches Some(c)
                    &&& c.from@ == vote.from@
                    &&& c.sequence == vote.sequence
                    &&& c.function@ == vote_function(vote.upvote)
                    &&& c.args matches CallArgs::Vote { hash }
                    &&& hash@ == bytes
                },
                _ => call is None,
            }
        },
    }
}

/// The bytes as an array of 32, or `None` when there are not exactly 32.
pub fn to_array(bytes: Vec<u8>) -> (array: Option<[u8; 32]>)
    ensures
        match array {
            Some(a) => bytes@.len() == 32 && a@ == bytes@,
            None => bytes@.len() != 32,
        },
{
    if bytes.len() != 32 {
        return None;
    }
    let mut array: [u8; 32] = [0u8; 32];
    let mut i: usize = 0;
    while i < 32
        invariant
            0 <= i <= 32,
            bytes@.len() == 32,
            array@.len() == 32,
            forall|j: int| 0 <= j < i ==> array@[j] == bytes@[j],
        decreases 32 - i,
    {
        array[i] = bytes[i];
        i = i + 1;
    }
    assert(array@ =~= bytes@);
    Some(array)
}

/// The 32 bytes that a hexadecimal hash spells, or `None` when it spells
/// something else or is no hexadecimal text.
pub fn decode_vote_hash(hash: &String) -> (bytes: Option<[u8; 32]>)
    ensures
        match bytes {
            Some(a) => hex_decoded(hash@) == Some(a@),
            None => !(hex_decoded(hash@) matches Some(b) && b.len() == 32),
        },
{
    match hex_decode(hash.as_str()) {
        Some(decoded) => to_array(decoded),
        None => None,
    }
}

/// The contract call that a simulation request asks for.
pub fn simulation_call(request: &SimulationRequest) -> (call: Option<SimulationCall>)
    ensures
        call_for(*request, call),
        request matches SimulationRequest::Send(send) ==> {
            &&& call matches Some(c)
            &&& c.from@ == send.from@
            &&& c.sequence == send.sequence
            &&& c.args matches CallArgs::Send { message }
            &&& message@ == send.message@
        },
        request matches SimulationRequest::Vote(vote) ==> (call is Some <==> (hex_decoded(vote.hash@) matches Some(
            bytes,
        ) && bytes.len() == 32)),
        request matches SimulationRequest::Vote(vote) ==> (call matches Some(c) ==> {
            &&& c.from@ == vote.from@
            &&& c.sequence == vote.sequence
            &&& c.args matches CallArgs::Vote { hash }
            &&& hex_decoded(vote.hash@) == Some(hash@)
        }),
{
    match request {
        SimulationRequest::Send(send) => {
            let function = "send";
            proof {
                reveal_strlit("send");
                assert(function@ =~= send_function());
            }
            Some(
                SimulationCall {
                    from: send.from.clone(),
                    sequence: send.sequence,
                    function: function.to_owned(),
                    args: CallArgs::Send { message: send.message.clone() },
                },
            )
        },
        SimulationRequest::Vote(vote) => {
            let hash = match decode_vote_hash(&vote.hash) {
                Some(hash) => hash,
                None => return None,
            };
            let function = if vote.upvote {
                proof {
                    reveal_strlit("upvote");
                    assert("upvote"@ =~= vote_function(true));
                }
                "upvote"
            } else {
                proof {
                    reveal_strlit("downvote");
                    assert("downvote"@ =~= vote_function(false));
                }
                "downvote"
            };
            Some(
                SimulationCall {
                    from: vote.from.clone(),
                    sequence: vote.sequence,
                    function: function.to_owned(),
                    args: CallArgs::Vote { hash },
                },
            )
        },
    }
}

/// A messages row as plain values: poster, hash, text, count.
pub type RowView = (Seq<char>, Seq<u8>, Seq<u8>, i32);

/// Row `k` of a table is the first with the given hash.
pub open spec fn table_first_match(table: Seq<RowView>, hash: Seq<u8>, k: int) -> bool {
    &&& 0 <= k < table.len()
    &&& table[k].1 == hash
    &&& forall|j: int| 0 <= j < k ==> table[j].1 != hash
}

/// What a vote does to the messages table: the first row with the hash gets
/// its count changed by one, and the table update, which selects rows by
/// hash, writes that row over every row with the hash; without such a row
/// the table stays.
pub open spec fn adjust_table(table: Seq<RowView>, hash: Seq<u8>, upvote: bool) -> Seq<RowView> {
    if exists|k: int| table_first_match(table, hash, k) {
        let k = choose|k: int| table_first_match(table, hash, k);
        let row = (table[k].0, table[k].1, table[k].2, (table[k].3 + vote_delta(upvote)) as i32);
        table.map_values(|r: RowView| if r.1 == hash { row } else { r })
    } else {
        table
    }
}

/// What the indexing steps of one event do to the messages table: a new
/// message adds a row for its poster, hash, text and count; a vote adjusts
/// the count; a votes row touches another table.
pub open spec fn apply_steps(table: Seq<RowView>, steps: Seq<IndexStep>, from: Seq<char>, hash: Seq<u8>, text: Seq<u8>) -> Seq<RowView>
    decreases steps.len(),
{
    if steps.len() == 0 {
        table
    } else {
        let next = match steps[0] {
            IndexStep::RecordFeedback { votes } => table.push((from, hash, text, votes)),
            IndexStep::RecordVote { .. } => table,
            IndexStep::AdjustVotes { upvote } => adjust_table(table, hash, upvote),
        };
        apply_steps(next, steps.drop_first(), from, hash, text)
    }
}

/// What indexing one event of the indexed contract does to the messages
/// table.
pub open spec fn index_event(table: Seq<RowView>, event: (Seq<char>, Seq<char>, Seq<u8>, Option<Seq<u8>>)) -> Seq<RowView> {
    let text = match event.3 {
        Some(text) => text,
        None => Seq::empty(),
    };
    apply_steps(table, planned_steps(CONTRACT_ADDRESS@, event.0), event.1, event.2, text)
}

/// No two rows of a table have the same hash.
pub open spec fn distinct_hashes(table: Seq<RowView>) -> bool {
    forall|i: int, j: int| 0 <= i < table.len() && 0 <= j < table.len() && i != j ==> table[i].1 != table[j].1
}

/// The table holds exactly one row per recorded hash, with its count.
pub open spec fn mirrors(table: Seq<RowView>, votes: Map<Seq<u8>, i32>) -> bool {
    &&& distinct_hashes(table)
    &&& forall|i: int| 0 <= i < table.len() ==> votes.contains_key(#[trigger] table[i].1) && votes[table[i].1] == table[i].3
    &&& forall|h: Seq<u8>| #[trigger] votes.contains_key(h) ==> exists|i: int| 0 <= i < table.len() && table[i].1 == h
}

} // verus!
