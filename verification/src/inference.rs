use vstd::prelude::*;

use serde_json::Value;

use crate::error::{AppError, ErrorKind};
use crate::text::{chars_match_at, chars_of, concat2, concat3, contains_seq, is_prefix, occurs_at, owned, str_eq, string_of, trim_end_matches, trim_end_seq};
use crate::tools::file::find::{chars_less, lemma_seq_less_irreflexive, lemma_seq_less_total, lemma_seq_less_transitive, seq_less};

verus! {

/// Who wrote a message of a conversation.
#[derive(Debug, Clone, Copy, PartialEq, Eq, Structural)]
pub enum MessageType {
    System,
    Assistant,
    User,
    Tool,
}

/// How long a provider may cache the conversation up to a message.
#[derive(Debug, Clone, Copy, PartialEq, Eq, Structural)]
pub enum MessageCacheLevel {
    Disabled,
    Ephemeral5min,
    Ephemeral1h,
    Ephemeral24h,
}

/// The cache marks that a chat request carries.
#[derive(Debug, Clone, Copy, PartialEq, Eq, Structural)]
pub enum CacheControl {
    Ephemeral5m,
    Ephemeral1h,
    Ephemeral24h,
}

/// The role of a message in a chat request.
#[derive(Debug, Clone, Copy, PartialEq, Eq, Structural)]
pub enum ChatRole {
    System,
    User,
    Assistant,
}

/// A message of a conversation: who wrote it, which agent it belongs to,
/// its text and how long it may be cached.
#[derive(Debug, Clone)]
pub struct Message {
    pub message_type: MessageType,
    pub agent_name: String,
    pub content: String,
    pub cache_level: MessageCacheLevel,
}

/// A message of a chat request: its role, its text and its cache mark.
#[derive(Debug, Clone)]
pub struct ChatPart {
    pub role: ChatRole,
    pub text: String,
    pub cache: Option<CacheControl>,
}

/// The cache mark for a cache level, if it has one.
pub open spec fn cache_control_of(l: MessageCacheLevel) -> Option<CacheControl> {
    match l {
        MessageCacheLevel::Ephemeral5min => Some(CacheControl::Ephemeral5m),
        MessageCacheLevel::Ephemeral1h => Some(CacheControl::Ephemeral1h),
        MessageCacheLevel::Ephemeral24h => Some(CacheControl::Ephemeral24h),
        MessageCacheLevel::Disabled => None,
    }
}

/// The cache mark for a cache level, if it has one.
pub fn convert_cache_control(l: MessageCacheLevel) -> (r: Option<CacheControl>)
    ensures
        r == cache_control_of(l),
{
    match l {
        MessageCacheLevel::Ephemeral5min => Some(CacheControl::Ephemeral5m),
        MessageCacheLevel::Ephemeral1h => Some(CacheControl::Ephemeral1h),
        MessageCacheLevel::Ephemeral24h => Some(CacheControl::Ephemeral24h),
        MessageCacheLevel::Disabled => None,
    }
}

/// The role under which a message goes to the model: another agent's
/// answers and tool results go as the user's words.
pub open spec fn role_of(t: MessageType, author: Seq<char>, agent: Seq<char>) -> ChatRole {
    match t {
        MessageType::System => ChatRole::System,
        MessageType::Assistant => if author != agent { ChatRole::User } else { ChatRole::Assistant },
        MessageType::User => ChatRole::User,
        MessageType::Tool => ChatRole::User,
    }
}

/// The text under which a message goes to the model: another agent's
/// answers are marked with its name, tool results are framed.
pub open spec fn text_of(t: MessageType, author: Seq<char>, agent: Seq<char>, content: Seq<char>) -> Seq<char> {
    match t {
        MessageType::Assistant => if author != agent {
            "[subagent/"@ + author + "]: "@ + content
        } else {
            content
        },
        MessageType::Tool => "--- TOOL/SKILL RESULT ---\n"@ + content + "\n--- END TOOL/SKILL RESULT ---"@,
        _ => content,
    }
}

/// `p` is the message `m` of a conversation of the agent `agent`, with the
/// cache mark `cache`.
pub open spec fn part_of(p: ChatPart, m: Message, agent: Seq<char>, cache: Option<CacheControl>) -> bool {
    &&& p.role == role_of(m.message_type, m.agent_name@, agent)
    &&& p.text@ == text_of(m.message_type, m.agent_name@, agent, m.content@)
    &&& p.cache == cache
}

/// The message `m` of a conversation of the agent `agent`, as sent.
pub fn new_message(m: &Message, agent: &str) -> (p: ChatPart)
    ensures
        part_of(p, *m, agent@, None),
        m.message_type == MessageType::User ==> p.role == ChatRole::User,
        p.role == ChatRole::Assistant ==> m.message_type == MessageType::Assistant && m.agent_name@ == agent@,
{
    match m.message_type {
        MessageType::System => ChatPart { role: ChatRole::System, text: owned(m.content.as_str()), cache: None },
        MessageType::Assistant => {
            if !str_eq(m.agent_name.as_str(), agent) {
                let head = concat3("[subagent/", m.agent_name.as_str(), "]: ");
                ChatPart { role: ChatRole::User, text: concat2(head.as_str(), m.content.as_str()), cache: None }
            } else {
                ChatPart { role: ChatRole::Assistant, text: owned(m.content.as_str()), cache: None }
            }
        },
        MessageType::User => ChatPart { role: ChatRole::User, text: owned(m.content.as_str()), cache: None },
        MessageType::Tool => ChatPart {
            role: ChatRole::User,
            text: concat3("--- TOOL/SKILL RESULT ---\n", m.content.as_str(), "\n--- END TOOL/SKILL RESULT ---"),
            cache: None,
        },
    }
}

/// The messages of a chat request: the system prompt (with its own cache
/// mark) first, then the conversation, its last message marked with the
/// default cache level.
pub fn chat_request(prompt: &Message, messages: &Vec<Message>, agent: &str, default_cache: MessageCacheLevel) -> (r: (ChatPart, Vec<ChatPart>))
    ensures
        part_of(r.0, *prompt, agent@, cache_control_of(prompt.cache_level)),
        r.1@.len() == messages@.len(),
        forall|i: int| 0 <= i < r.1@.len() ==> part_of(
            #[trigger] r.1@[i],
            messages@[i],
            agent@,
            if i == messages@.len() - 1 { cache_control_of(default_cache) } else { None },
        ),
{
    let mut system = new_message(prompt, agent);
    system.cache = convert_cache_control(prompt.cache_level);
    let mut parts: Vec<ChatPart> = Vec::new();
    let n = messages.len();
    let mut i: usize = 0;
    while i < n
        invariant
            n == messages@.len(),
            i <= n,
            parts@.len() == i,
            forall|k: int| 0 <= k < i ==> part_of(
                #[trigger] parts@[k],
                messages@[k],
                agent@,
                if k == n - 1 { cache_control_of(default_cache) } else { None },
            ),
        decreases n - i,
    {
        let mut p = new_message(&messages[i], agent);
        if i + 1 == n {
            p.cache = convert_cache_control(default_cache);
        }
        parts.push(p);
        i = i + 1;
    }
    (system, parts)
}

/// The cache mark of the tool list: the system level when set, else the
/// default level.
pub fn tools_cache(system: Option<MessageCacheLevel>, default: MessageCacheLevel) -> (r: Option<CacheControl>)
    ensures
        r == cache_control_of(match system { Some(s) => s, None => default }),
{
    match system {
        Some(s) => convert_cache_control(s),
        None => convert_cache_control(default),
    }
}

/// Tool `i` comes before tool `j` in a stable sort by name.
pub open spec fn name_before(names: Seq<Seq<char>>, i: int, j: int) -> bool {
    seq_less(names[i], names[j]) || (!seq_less(names[j], names[i]) && i < j)
}

/// `order` lists the indices of `names` as a stable sort by name does.
pub open spec fn sorted_by_name(names: Seq<Seq<char>>, order: Seq<usize>) -> bool {
    &&& order.len() == names.len()
    &&& order.no_duplicates()
    &&& forall|p: int| 0 <= p < order.len() ==> (#[trigger] order[p] as int) < names.len()
    &&& forall|p: int, q: int| 0 <= p < q < order.len() ==> name_before(names, #[trigger] order[p] as int, #[trigger] order[q] as int)
}

proof fn lemma_name_before_transitive(names: Seq<Seq<char>>, i: int, j: int, k: int)
    requires
        0 <= i < names.len(),
        0 <= j < names.len(),
        0 <= k < names.len(),
        name_before(names, i, j),
        name_before(names, j, k),
    ensures
        name_before(names, i, k),
{
    let (a, b, c) = (names[i], names[j], names[k]);
    lemma_seq_less_total(a, b);
    lemma_seq_less_total(b, c);
    lemma_seq_less_total(a, c);
    if seq_less(a, b) && seq_less(b, c) {
        lemma_seq_less_transitive(a, b, c);
    }
    if seq_less(c, a) && seq_less(a, b) {
        lemma_seq_less_transitive(c, a, b);
    }
    if seq_less(b, c) && seq_less(c, a) {
        lemma_seq_less_transitive(b, c, a);
    }
    lemma_seq_less_irreflexive(a);
    lemma_seq_less_irreflexive(b);
    lemma_seq_less_irreflexive(c);
}

/// The order in which tools are offered: by name, as `slice::sort_by` with
/// the names' `cmp` (stable) puts them.
pub fn tool_order(names: &Vec<String>) -> (order: Vec<usize>)
    ensures
        sorted_by_name(names@.map_values(|s: String| s@), order@),
{
    let ghost ns = names@.map_values(|s: String| s@);
    let mut cs: Vec<Vec<char>> = Vec::new();
    let mut k: usize = 0;
    while k < names.len()
        invariant
            k <= names@.len(),
            ns == names@.map_values(|s: String| s@),
            cs.len() == k,
            forall|m: int| 0 <= m < k ==> (#[trigger] cs@[m])@ == ns[m],
        decreases names.len() - k,
    {
        cs.push(chars_of(names[k].as_str()));
        k = k + 1;
    }
    let mut order: Vec<usize> = Vec::new();
    let mut i: usize = 0;
    while i < names.len()
        invariant
            i <= names@.len(),
            ns.len() == names@.len(),
            cs.len() == names@.len(),
            forall|m: int| 0 <= m < names@.len() ==> (#[trigger] cs@[m])@ == ns[m],
            order.len() == i,
            order@.no_duplicates(),
            forall|p: int| 0 <= p < order.len() ==> (#[trigger] order@[p] as int) < i,
            forall|p: int, q: int| 0 <= p < q < order.len() ==> name_before(ns, #[trigger] order@[p] as int, #[trigger] order@[q] as int),
        decreases names.len() - i,
    {
        let mut pos: usize = 0;
        while pos < order.len() && !(chars_less(&cs[i], &cs[order[pos]]) || (!chars_less(&cs[order[pos]], &cs[i]) && i < order[pos]))
            invariant
                pos <= order.len(),
                i < names@.len(),
                cs.len() == names@.len(),
                forall|m: int| 0 <= m < names@.len() ==> (#[trigger] cs@[m])@ == ns[m],
                forall|p: int| 0 <= p < order.len() ==> (#[trigger] order@[p] as int) < i,
                forall|p: int| 0 <= p < pos ==> !name_before(ns, i as int, #[trigger] order@[p] as int),
            decreases order.len() - pos,
        {
            pos = pos + 1;
        }
        let ghost before = order@;
        order.insert(pos, i);
        proof {
            assert(order@ == before.insert(pos as int, i));
            assert forall|p: int| 0 <= p < order.len() implies (#[trigger] order@[p] as int) < i + 1 by {
                if p < pos {
                    assert(order@[p] == before[p]);
                } else if p > pos {
                    assert(order@[p] == before[p - 1]);
                }
            }
            assert forall|p: int, q: int| 0 <= p < q < order.len() implies name_before(ns, #[trigger] order@[p] as int, #[trigger] order@[q] as int) by {
                if q < pos {
                    assert(order@[p] == before[p] && order@[q] == before[q]);
                } else if q == pos {
                    assert(order@[p] == before[p]);
                } else if p == pos {
                    assert(order@[q] == before[q - 1]);
                    if q - 1 > pos {
                        assert(name_before(ns, before[pos as int] as int, before[q - 1] as int));
                        lemma_name_before_transitive(ns, i as int, before[pos as int] as int, before[q - 1] as int);
                    }
                } else if p < pos {
                    assert(order@[p] == before[p] && order@[q] == before[q - 1]);
                } else {
                    assert(order@[p] == before[p - 1] && order@[q] == before[q - 1]);
                }
            }
            assert forall|p: int, q: int| 0 <= p < q < order.len() implies order@[p] != order@[q] by {
                if p == pos {
                    assert(order@[q] == before[q - 1]);
                } else if q == pos {
                    assert(order@[p] == before[p]);
                } else if p < pos && q < pos {
                    assert(order@[p] == before[p] && order@[q] == before[q]);
                } else if p < pos {
                    assert(order@[p] == before[p] && order@[q] == before[q - 1]);
                } else {
                    assert(order@[p] == before[p - 1] && order@[q] == before[q - 1]);
                }
            }
        }
        i = i + 1;
    }
    order
}

/// Stop sequence `j` of `stops` occurs in `s` at `k`.
pub open spec fn stop_occurs(s: Seq<char>, stops: Seq<Seq<char>>, j: int, k: int) -> bool {
    0 <= j < stops.len() && occurs_at(s, stops[j], k)
}

/// Generation halts at `k`: a stop sequence occurs in `s` at `k`, and no
/// occurrence of a stop sequence is complete earlier (among those complete
/// at the same point, this one starts first).
pub open spec fn halts_at(s: Seq<char>, stops: Seq<Seq<char>>, k: int) -> bool {
    exists|j: int| {
        &&& #[trigger] stop_occurs(s, stops, j, k)
        &&& forall|j2: int, k2: int| #[trigger] stop_occurs(s, stops, j2, k2) ==> {
            ||| k2 + stops[j2].len() > k + stops[j].len()
            ||| (k2 + stops[j2].len() == k + stops[j].len() && k2 >= k)
        }
    }
}

/// `s` as kept when generation halts at the first stop sequence that it
/// completes: cut before that stop sequence, unchanged when none occurs.
pub open spec fn cut_at_stops(s: Seq<char>, stops: Seq<Seq<char>>) -> Seq<char> {
    if exists|k: int| halts_at(s, stops, k) {
        s.take(choose|k: int| halts_at(s, stops, k))
    } else {
        s
    }
}

/// Generation halts at one point at most.
proof fn lemma_halts_unique(s: Seq<char>, stops: Seq<Seq<char>>, k1: int, k2: int)
    requires
        halts_at(s, stops, k1),
        halts_at(s, stops, k2),
    ensures
        k1 == k2,
{
    let j1 = choose|j: int| {
        &&& #[trigger] stop_occurs(s, stops, j, k1)
        &&& forall|j2: int, k3: int| #[trigger] stop_occurs(s, stops, j2, k3) ==> {
            ||| k3 + stops[j2].len() > k1 + stops[j].len()
            ||| (k3 + stops[j2].len() == k1 + stops[j].len() && k3 >= k1)
        }
    };
    let j2 = choose|j: int| {
        &&& #[trigger] stop_occurs(s, stops, j, k2)
        &&& forall|j3: int, k3: int| #[trigger] stop_occurs(s, stops, j3, k3) ==> {
            ||| k3 + stops[j3].len() > k2 + stops[j].len()
            ||| (k3 + stops[j3].len() == k2 + stops[j].len() && k3 >= k2)
        }
    };
    assert(stop_occurs(s, stops, j2, k2));
    assert(stop_occurs(s, stops, j1, k1));
}

/// `answer` as kept when generation halts at the first stop sequence that
/// it completes; a kept answer is a prefix of the answer and, when no stop
/// sequence is empty, holds none of them.
pub fn truncate_at_stops(answer: &str, stops: &Vec<String>) -> (r: String)
    ensures
        r@ == cut_at_stops(answer@, stops@.map_values(|s: String| s@)),
        is_prefix(r@, answer@),
        (forall|j: int| 0 <= j < stops@.len() ==> (#[trigger] stops@[j])@.len() > 0) ==> forall|j: int|
            0 <= j < stops@.len() ==> !contains_seq(r@, (#[trigger] stops@[j])@),
{
    let ghost ss = stops@.map_values(|s: String| s@);
    let v = chars_of(answer);
    let n = v.len();
    let m = stops.len();
    let mut ps: Vec<Vec<char>> = Vec::new();
    let mut t: usize = 0;
    while t < m
        invariant
            m == stops@.len(),
            t <= m,
            ps@.len() == t,
            forall|j: int| 0 <= j < t ==> (#[trigger] ps@[j])@ == stops@[j]@,
        decreases m - t,
    {
        ps.push(chars_of(stops[t].as_str()));
        t = t + 1;
    }
    assert(forall|j: int| 0 <= j < m ==> (#[trigger] ps@[j])@ == ss[j]);
    let mut e: usize = 0;
    loop
        invariant
            e <= n,
            n == v@.len(),
            v@ == answer@,
            m == ps@.len(),
            ss.len() == m,
            m == stops@.len(),
            ss == stops@.map_values(|s: String| s@),
            forall|j: int| 0 <= j < m ==> (#[trigger] ps@[j])@ == ss[j],
            forall|j: int, k: int| #[trigger] stop_occurs(v@, ss, j, k) ==> k + ss[j].len() >= e,
        ensures
            forall|j: int, k: int| !(#[trigger] stop_occurs(v@, ss, j, k)),
        decreases n - e,
    {
        let mut best: Option<usize> = None;
        let ghost mut bj: int = 0;
        let mut j: usize = 0;
        while j < m
            invariant
                e <= n,
                n == v@.len(),
                m == ps@.len(),
                ss.len() == m,
                j <= m,
                forall|i: int| 0 <= i < m ==> (#[trigger] ps@[i])@ == ss[i],
                best matches Some(k) ==> {
                    &&& 0 <= bj < j
                    &&& stop_occurs(v@, ss, bj, k as int)
                    &&& k + ss[bj].len() == e
                },
                forall|i: int| 0 <= i < j && ss[i].len() <= e && #[trigger] stop_occurs(v@, ss, i, e - ss[i].len()) ==> (best matches Some(k) && k <= e - ss[i].len()),
            decreases m - j,
        {
            let l = ps[j].len();
            if l <= e {
                let k = e - l;
                if chars_match_at(&v, &ps[j], k) {
                    let better = match best {
                        Some(b) => k < b,
                        None => true,
                    };
                    if better {
                        best = Some(k);
                        proof {
                            bj = j as int;
                        }
                    }
                }
            }
            j = j + 1;
        }
        match best {
            Some(k) => {
                proof {
                    assert forall|j2: int, k2: int| #[trigger] stop_occurs(v@, ss, j2, k2) implies {
                        ||| k2 + ss[j2].len() > k + ss[bj].len()
                        ||| (k2 + ss[j2].len() == k + ss[bj].len() && k2 >= k)
                    } by {
                        if k2 + ss[j2].len() == e {
                            assert(k2 == e - ss[j2].len());
                        }
                    }
                    assert(halts_at(v@, ss, k as int));
                    let c = choose|c: int| halts_at(v@, ss, c);
                    lemma_halts_unique(v@, ss, c, k as int);
                    assert(answer@.subrange(0, k as int) =~= answer@.take(k as int));
                    if forall|i: int| 0 <= i < stops@.len() ==> (#[trigger] stops@[i])@.len() > 0 {
                        assert forall|i: int| 0 <= i < stops@.len() implies !contains_seq(v@.take(k as int), (#[trigger] stops@[i])@) by {
                            assert(ss[i] == stops@[i]@);
                            if contains_seq(v@.take(k as int), ss[i]) {
                                let q = choose|q: int| occurs_at(v@.take(k as int), ss[i], q);
                                assert(v@.take(k as int).subrange(q, q + ss[i].len()) =~= v@.subrange(q, q + ss[i].len()));
                                assert(stop_occurs(v@, ss, i, q));
                                assert(ss[bj].len() > 0) by {
                                    assert(ss[bj] == stops@[bj]@);
                                }
                            }
                        }
                    }
                }
                return string_of(&v, 0, k);
            },
            None => {
                proof {
                    assert forall|j2: int, k2: int| #[trigger] stop_occurs(v@, ss, j2, k2) implies k2 + ss[j2].len() >= e + 1 by {
                        if k2 + ss[j2].len() == e {
                            assert(k2 == e - ss[j2].len());
                        }
                    }
                }
            },
        }
        if e == n {
            proof {
                assert forall|j2: int, k2: int| !(#[trigger] stop_occurs(v@, ss, j2, k2)) by {
                    if stop_occurs(v@, ss, j2, k2) {
                        assert(k2 + ss[j2].len() <= n);
                    }
                }
            }
            break;
        }
        e = e + 1;
    }
    proof {
        assert(!exists|k: int| halts_at(v@, ss, k));
        assert(is_prefix(answer@, answer@)) by {
            assert(answer@.subrange(0, answer@.len() as int) =~= answer@);
        }
        assert forall|i: int| 0 <= i < stops@.len() && (#[trigger] stops@[i])@.len() > 0 implies !contains_seq(answer@, stops@[i]@) by {
            assert(ss[i] == stops@[i]@);
            if contains_seq(answer@, ss[i]) {
                let q = choose|q: int| occurs_at(answer@, ss[i], q);
                assert(stop_occurs(v@, ss, i, q));
            }
        }
    }
    owned(answer)
}

/// Which kind of API a model is reached through.
#[derive(Debug, Clone, Copy, PartialEq, Eq, Structural)]
pub enum ModelAdapter {
    OpenAI,
    OpenAIResp,
    Anthropic,
    Gemini,
}

/// The text of an answer as kept: for models reached through the OpenAI
/// responses API, which ignores stop sequences, cut where generation would
/// have halted at one.
pub fn answer_text(adapter: ModelAdapter, stops: &Vec<String>, answer: &str) -> (r: String)
    ensures
        (adapter == ModelAdapter::OpenAIResp && stops@.len() > 0) ==> r@ == cut_at_stops(answer@, stops@.map_values(|s: String| s@)),
        !(adapter == ModelAdapter::OpenAIResp && stops@.len() > 0) ==> r@ == answer@,
{
    if adapter == ModelAdapter::OpenAIResp && stops.len() > 0 {
        truncate_at_stops(answer, stops)
    } else {
        owned(answer)
    }
}

/// Whether stop sequences go with the request: when there are some and
/// the API honours them.
pub fn sends_stop_sequences(adapter: ModelAdapter, stops: &Vec<String>) -> (b: bool)
    ensures
        b == (stops@.len() > 0 && adapter != ModelAdapter::OpenAIResp),
{
    stops.len() > 0 && adapter != ModelAdapter::OpenAIResp
}

/// The most tokens an answer may have, as the request carries it.
pub fn max_tokens(requested: u64) -> (r: u32)
    ensures
        r == (if requested <= u32::MAX { requested } else { u32::MAX as u64 }),
{
    if requested <= u32::MAX as u64 {
        requested as u32
    } else {
        u32::MAX
    }
}

/// How hard a model should reason.
#[derive(Debug, Clone, Copy, PartialEq, Eq, Structural)]
pub enum ReasoningEffort {
    Low,
    Medium,
    High,
    Max,
}

/// The reasoning effort as the request carries it.
#[derive(Debug, Clone, Copy, PartialEq, Eq, Structural)]
pub enum RequestEffort {
    Low,
    Medium,
    High,
    Max,
    XHigh,
}

/// The effort a request asks for: `Max` where the API knows it (Anthropic,
/// Gemini), else `XHigh`.
pub open spec fn request_effort(e: ReasoningEffort, adapter: ModelAdapter) -> RequestEffort {
    match e {
        ReasoningEffort::Low => RequestEffort::Low,
        ReasoningEffort::Medium => RequestEffort::Medium,
        ReasoningEffort::High => RequestEffort::High,
        ReasoningEffort::Max => if adapter == ModelAdapter::Anthropic || adapter == ModelAdapter::Gemini {
            RequestEffort::Max
        } else {
            RequestEffort::XHigh
        },
    }
}

/// The effort a request asks for.
pub fn reasoning_effort(e: ReasoningEffort, adapter: ModelAdapter) -> (r: RequestEffort)
    ensures
        r == request_effort(e, adapter),
{
    match e {
        ReasoningEffort::Low => RequestEffort::Low,
        ReasoningEffort::Medium => RequestEffort::Medium,
        ReasoningEffort::High => RequestEffort::High,
        ReasoningEffort::Max => {
            if adapter == ModelAdapter::Anthropic || adapter == ModelAdapter::Gemini {
                RequestEffort::Max
            } else {
                RequestEffort::XHigh
            }
        },
    }
}

/// An inference provider reached through the `genai` client: the
/// configuration keys of its endpoint and API key.
pub struct GenAi {
    configuration_key_endpoint: String,
    configuration_key_api_key: String,
}

impl GenAi {
    pub closed spec fn endpoint_key(&self) -> Seq<char> {
        self.configuration_key_endpoint@
    }

    pub closed spec fn api_key_key(&self) -> Seq<char> {
        self.configuration_key_api_key@
    }

    pub fn new(configuration_key_endpoint: &str, configuration_key_api_key: &str) -> (g: GenAi)
        ensures
            g.endpoint_key() == configuration_key_endpoint@,
            g.api_key_key() == configuration_key_api_key@,
    {
        GenAi {
            configuration_key_endpoint: owned(configuration_key_endpoint),
            configuration_key_api_key: owned(configuration_key_api_key),
        }
    }

    /// Where the endpoint is configured.
    pub fn endpoint_key_name(&self) -> (r: &str)
        ensures
            r@ == self.endpoint_key(),
    {
        self.configuration_key_endpoint.as_str()
    }

    /// Where the API key is configured.
    pub fn api_key_name(&self) -> (r: &str)
        ensures
            r@ == self.api_key_key(),
    {
        self.configuration_key_api_key.as_str()
    }

    /// The answer to a request for the models it supports: it cannot list
    /// them.
    pub fn supported_models(&self) -> (e: AppError)
        ensures
            e.is(ErrorKind::Internal, "not_supported"@, "The GenAI inference provider does not support listing available models"@),
    {
        AppError::new(ErrorKind::Internal, "not_supported", owned("The GenAI inference provider does not support listing available models"))
    }

    /// The answer to a question whether it supports a model: it cannot
    /// tell.
    pub fn supports_model(&self) -> (e: AppError)
        ensures
            e.is(
                ErrorKind::Internal,
                "not_supported"@,
                "The GenAI inference provider does not support checking if a model is supported"@,
            ),
    {
        AppError::new(
            ErrorKind::Internal,
            "not_supported",
            owned("The GenAI inference provider does not support checking if a model is supported"),
        )
    }
}

/// The Anthropic provider, reached through the `genai` client with its own
/// configuration keys.
pub struct Anthropic {
    genai: GenAi,
}

impl Anthropic {
    pub closed spec fn client(&self) -> GenAi {
        self.genai
    }

    pub fn new() -> (a: Anthropic)
        ensures
            a.client().endpoint_key() == "inference.providers.anthropic.endpoint"@,
            a.client().api_key_key() == "inference.providers.anthropic.apikey"@,
    {
        Anthropic { genai: GenAi::new("inference.providers.anthropic.endpoint", "inference.providers.anthropic.apikey") }
    }

    /// The `genai` provider it goes through.
    pub fn genai(&self) -> (r: &GenAi)
        ensures
            *r == self.client(),
    {
        &self.genai
    }

    /// Whether the model `id` is among the `available` ones.
    pub fn supports_model(available: &Vec<String>, id: &str) -> (b: bool)
        ensures
            b == available@.map_values(|s: String| s@).contains(id@),
    {
        let ghost av = available@.map_values(|s: String| s@);
        let mut i: usize = 0;
        while i < available.len()
            invariant
                i <= available@.len(),
                av == available@.map_values(|s: String| s@),
                forall|k: int| 0 <= k < i ==> #[trigger] av[k] != id@,
            decreases available.len() - i,
        {
            if str_eq(available[i].as_str(), id) {
                assert(av[i as int] == id@);
                return true;
            }
            i = i + 1;
        }
        false
    }
}

/// Where a provider lists its models: `/models` under its endpoint
/// (trailing `/` removed).
pub fn models_url(endpoint: &str) -> (r: String)
    ensures
        r@ == trim_end_seq(endpoint@, "/"@) + "/models"@,
{
    let base = trim_end_matches(endpoint, "/");
    concat2(base.as_str(), "/models")
}


/// What a provider's model listing `body` (JSON text) holds, as `serde_json`
/// reads it: the value written back as compact JSON (its `Display`), and
/// the `id` of each entry of its `data` array (`None` for an entry without
/// a string `id`), `None` when there is no `data` array; or the `Display`
/// text of the parse error.
pub uninterp spec fn listed_model_ids(body: Seq<char>) -> Result<(Seq<char>, Option<Seq<Option<Seq<char>>>>), Seq<char>>;

/// The ids of a listing as plain values.
pub open spec fn ids_view(ids: Seq<Option<String>>) -> Seq<Option<Seq<char>>> {
    ids.map_values(|i: Option<String>| match i { Some(t) => Some(t@), None => None })
}

/// `serde_json::from_str` of the listing `body`, its `Display`, then
/// `Value::get("data")`, `Value::as_array`, and `get("id")` with `as_str`
/// on each entry, named by `listed_model_ids`.
#[verifier::external_body]
fn model_ids(body: &str) -> (r: Result<(String, Option<Vec<Option<String>>>), String>)
    ensures
        match r {
            Ok((shown, Some(ids))) => listed_model_ids(body@) == Ok::<(Seq<char>, Option<Seq<Option<Seq<char>>>>), Seq<char>>((shown@, Some(ids_view(ids@)))),
            Ok((shown, None)) => listed_model_ids(body@) == Ok::<(Seq<char>, Option<Seq<Option<Seq<char>>>>), Seq<char>>((shown@, None)),
            Err(m) => listed_model_ids(body@) == Err::<(Seq<char>, Option<Seq<Option<Seq<char>>>>), Seq<char>>(m@),
        },
{
    let v: Value = serde_json::from_str(body).map_err(|e| e.to_string())?;
    let ids = v.get("data").and_then(|d| d.as_array()).map(|a| a.iter().map(|m| m.get("id").and_then(|i| i.as_str()).map(|t| t.to_string())).collect());
    Ok((v.to_string(), ids))
}

/// The ids that are present, in order.
pub open spec fn present_ids(ids: Seq<Option<Seq<char>>>) -> Seq<Seq<char>>
    decreases ids.len(),
{
    if ids.len() == 0 {
        Seq::empty()
    } else {
        let rest = present_ids(ids.drop_last());
        match ids.last() {
            Some(t) => rest.push(t),
            None => rest,
        }
    }
}

/// The answer to a model listing from the response: `body` is its JSON
/// text, or the text of the error met reading it. A body that cannot be
/// read is an error first, then an unsuccessful `status` (shown with the
/// body as JSON), then a listing without `data`; else the ids of the listed
/// models are kept in order.
pub fn available_models(status_ok: bool, status: &str, body: Result<String, String>) -> (r: Result<Vec<String>, AppError>)
    ensures
        match body {
            Err(m) => r matches Err(e) && e.is(ErrorKind::Internal, "inference_failed"@, "Failed to parse response body: "@ + m@),
            Ok(text) => match listed_model_ids(text@) {
                Err(m) => r matches Err(e) && e.is(ErrorKind::Internal, "inference_failed"@, "Failed to parse response body: "@ + m),
                Ok((shown, data)) => if !status_ok {
                    r matches Err(e) && e.is(ErrorKind::Internal, "inference_failed"@, "Failed to list available models: HTTP "@ + status@ + " - "@ + shown)
                } else {
                    match data {
                        None => r matches Err(e) && e.is(ErrorKind::Internal, "inference_failed"@, "Failed to parse models from response"@),
                        Some(ids) => r matches Ok(v) && v@.map_values(|t: String| t@) == present_ids(ids),
                    }
                },
            },
        },
{
    let text = match body {
        Ok(t) => t,
        Err(m) => {
            return Err(AppError::new(ErrorKind::Internal, "inference_failed", concat2("Failed to parse response body: ", m.as_str())));
        },
    };
    let (shown, data) = match model_ids(text.as_str()) {
        Ok(d) => d,
        Err(m) => {
            return Err(AppError::new(ErrorKind::Internal, "inference_failed", concat2("Failed to parse response body: ", m.as_str())));
        },
    };
    if !status_ok {
        let head = concat3("Failed to list available models: HTTP ", status, " - ");
        return Err(AppError::new(ErrorKind::Internal, "inference_failed", concat2(head.as_str(), shown.as_str())));
    }
    let ids = match data {
        Some(ids) => ids,
        None => {
            return Err(AppError::new(ErrorKind::Internal, "inference_failed", "Failed to parse models from response".to_owned()));
        },
    };
    let ghost iv = ids_view(ids@);
    let mut out: Vec<String> = Vec::new();
    let mut k: usize = 0;
    while k < ids.len()
        invariant
            k <= ids@.len(),
            iv == ids_view(ids@),
            out@.map_values(|t: String| t@) == present_ids(iv.take(k as int)),
        decreases ids.len() - k,
    {
        assert(iv.take(k + 1).drop_last() =~= iv.take(k as int));
        match &ids[k] {
            Some(t) => {
                let ghost before = out@.map_values(|t: String| t@);
                out.push(owned(t.as_str()));
                assert(out@.map_values(|t: String| t@) =~= before.push(t@));
            },
            None => {},
        }
        k = k + 1;
    }
    assert(iv.take(ids@.len() as int) =~= iv);
    Ok(out)
}


/// The role a message is sent under: the user's own words, and tool
/// results, always go as the user's, whoever the author and the agent;
/// only the agent's own answers go as the assistant's, and the answers of
/// another agent go as the user's.
pub proof fn message_role_law(t: MessageType, author: Seq<char>, agent: Seq<char>)
    ensures
        role_of(MessageType::User, author, agent) == ChatRole::User,
        role_of(MessageType::Tool, author, agent) == ChatRole::User,
        role_of(MessageType::System, author, agent) == ChatRole::System,
        role_of(MessageType::Assistant, agent, agent) == ChatRole::Assistant,
        author != agent ==> role_of(MessageType::Assistant, author, agent) == ChatRole::User,
        role_of(t, author, agent) == ChatRole::Assistant ==> t == MessageType::Assistant && author == agent,
{
}

} // verus!
