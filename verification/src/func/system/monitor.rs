//! The monitoring tools: the processes that use the most, and how many
//! processes are in which state.

use vstd::prelude::*;
use crate::decimal::{parsed_decimal, Decimal};
use crate::error::AiResult;
use crate::func::executor::{
    CommandOutcome, CommandRequest, ExecutorStep, FunctionExecutor, OutcomeSpec, PendingCommand,
    StepSpec,
};
use crate::func::system::platform::Platform;
use crate::func::system::{
    args1, args2, arguments_refused, finished, finished_result, follows, new_request, not_run,
    not_run_result, object_of, parse_function_arguments, parsed_arguments, run_first, starts,
    text_argument, text_or, timed_request, unknown, unknown_function, unsigned_argument,
    unsigned_or, PlanSpec,
};
use crate::json::{
    entry_views, flag_member, member_u64, number_member, object_member, set_member, text_member,
    texts_member, with_member, JsonMember, JsonSpec, JsonValue, MemberSpec,
};
use crate::provider::{
    definition, definition_views, find_schema, parameter, schema_named, DefinitionSpec,
    FunctionCall, FunctionDefinition, FunctionParameter, FunctionResult, ResultSpec,
};
use crate::text::{
    chars_of, clone_texts, decimal_text, lines, same_text, split_lines, split_words, text_of, views,
    words,
};

verus! {

/// The executor of the monitoring tools.
#[derive(Debug, Clone, Copy, PartialEq, Eq, Structural)]
pub struct MonitorExecutor;

/// The names of the monitoring tools.
pub open spec fn monitor_names() -> Seq<Seq<char>> {
    seq!["sys-proc-top"@, "sys-proc-stats"@]
}

/// Whether `name` is a monitoring tool.
pub open spec fn monitor_known(name: Seq<char>) -> bool {
    name == "sys-proc-top"@ || name == "sys-proc-stats"@
}

/// The schemas of the monitoring tools.
pub open spec fn monitor_schemas() -> Seq<DefinitionSpec> {
    seq![
        definition(
            "sys-proc-top"@,
            "显示高资源消耗进程列表，可按CPU或内存排序"@,
            seq![
                parameter("sort_by"@, "排序方式: 'cpu' 或 'memory'，默认为 'cpu'"@, "string"@, false),
                parameter("limit"@, "显示进程数量限制，默认为10"@, "number"@, false),
            ],
        ),
        definition("sys-proc-stats"@, "显示进程统计信息，包括进程状态分布"@, seq![]),
    ]
}

/// Whether the processes are ranked by memory; else by processor.
pub open spec fn by_memory(args: JsonSpec) -> bool {
    let sort_by = text_or(args, "sort_by"@, "cpu"@);
    sort_by == "memory"@ || sort_by == "mem"@
}

/// The command that a monitoring tool asks for. Where the platform's `ps`
/// can sort, it is asked to; on macOS the ranking is made afterwards.
pub open spec fn monitor_plan(name: Seq<char>, args: JsonSpec, platform: Platform) -> PlanSpec {
    if name == "sys-proc-top"@ {
        PlanSpec::Run(
            timed_request(
                "ps"@,
                if platform == Platform::MacOS {
                    seq!["aux"@]
                } else if by_memory(args) {
                    seq!["aux"@, "--sort=-%mem"@]
                } else {
                    seq!["aux"@, "--sort=-%cpu"@]
                },
                15,
            ),
        )
    } else {
        PlanSpec::Run(
            timed_request(
                "ps"@,
                if platform == Platform::MacOS {
                    seq!["ax"@]
                } else {
                    seq!["axo"@, "pid,stat,comm"@]
                },
                10,
            ),
        )
    }
}

/// The place of the greatest key among the places below `n` that are not
/// taken, the lowest such place where keys are equal; -1 where every
/// place below `n` is taken.
pub open spec fn best_below(keys: Seq<int>, taken: Set<int>, n: int) -> int
    decreases n,
{
    if n <= 0 {
        -1
    } else {
        let b = best_below(keys, taken, n - 1);
        if taken.contains(n - 1) {
            b
        } else if b < 0 || keys[n - 1] > keys[b] {
            n - 1
        } else {
            b
        }
    }
}

/// The places of the `count` greatest keys, the greatest first, equal keys
/// in their order; all places where there are fewer than `count`.
pub open spec fn ranking(keys: Seq<int>, count: nat) -> Seq<int>
    decreases count,
{
    if count == 0 {
        Seq::empty()
    } else {
        let before = ranking(keys, (count - 1) as nat);
        let b = best_below(keys, before.to_set(), keys.len() as int);
        if b < 0 {
            before
        } else {
            before.push(b)
        }
    }
}

/// The best place is a place that is not taken, or -1.
pub proof fn lemma_best_below(keys: Seq<int>, taken: Set<int>, n: int)
    requires
        0 <= n <= keys.len(),
    ensures
        -1 <= best_below(keys, taken, n) < n,
        best_below(keys, taken, n) >= 0 ==> !taken.contains(best_below(keys, taken, n)),
    decreases n,
{
    if n > 0 {
        lemma_best_below(keys, taken, n - 1);
    }
}

/// Once no place is left, asking for more changes nothing.
pub proof fn lemma_ranking_stalls(keys: Seq<int>, at: nat, count: nat)
    requires
        at <= count,
        best_below(keys, ranking(keys, at).to_set(), keys.len() as int) < 0,
    ensures
        ranking(keys, count) == ranking(keys, at),
    decreases count,
{
    if count > at {
        lemma_ranking_stalls(keys, at, (count - 1) as nat);
    }
}

/// Whether place `a` comes before place `b` in a ranking: its key is
/// greater, or the keys are equal and `a` is the earlier place.
pub open spec fn outranks(keys: Seq<int>, a: int, b: int) -> bool {
    keys[a] > keys[b] || (keys[a] == keys[b] && a < b)
}

/// The best place comes before every other place below `n` that is not
/// taken, and there is none exactly when every place below `n` is taken.
pub proof fn lemma_best_outranks(keys: Seq<int>, taken: Set<int>, n: int)
    requires
        0 <= n <= keys.len(),
    ensures
        best_below(keys, taken, n) < 0 <==> forall|p: int| 0 <= p < n ==> taken.contains(p),
        forall|p: int|
            0 <= p < n && !taken.contains(p) && p != best_below(keys, taken, n) ==> outranks(
                keys,
                best_below(keys, taken, n),
                p,
            ),
    decreases n,
{
    if n > 0 {
        lemma_best_outranks(keys, taken, n - 1);
        lemma_best_below(keys, taken, n - 1);
        lemma_best_below(keys, taken, n);
        let before = best_below(keys, taken, n - 1);
        let best = best_below(keys, taken, n);
        if best < 0 {
            assert forall|p: int| 0 <= p < n implies taken.contains(p) by {
                if p < n - 1 {
                    assert(taken.contains(p));
                }
            }
        } else {
            assert(!taken.contains(best));
        }
        assert forall|p: int| 0 <= p < n && !taken.contains(p) && p != best implies outranks(
            keys,
            best,
            p,
        ) by {
            if p < n - 1 {
                assert(before >= 0);
                if p != before {
                    assert(outranks(keys, before, p));
                }
            }
        }
    }
}

/// What a ranking is: its places are places of the keys, none twice; a
/// place comes before another only if its key is no smaller, and where
/// two keys are equal the earlier place comes first; a place that is left
/// out has no greater key than any place in the ranking, and where its
/// key is equal it is a later place. The ranking holds `count` places, or
/// all of them where there are fewer.
pub proof fn law_ranking_is_ordered(keys: Seq<int>, count: nat)
    ensures
        ranking(keys, count).no_duplicates(),
        forall|i: int|
            0 <= i < ranking(keys, count).len() ==> 0 <= #[trigger] ranking(keys, count)[i]
                < keys.len(),
        forall|i: int, j: int|
            0 <= i < j < ranking(keys, count).len() ==> outranks(
                keys,
                #[trigger] ranking(keys, count)[i],
                #[trigger] ranking(keys, count)[j],
            ),
        forall|p: int, i: int|
            0 <= p < keys.len() && !ranking(keys, count).contains(p) && 0 <= i < ranking(
                keys,
                count,
            ).len() ==> #[trigger] outranks(keys, ranking(keys, count)[i], p),
        ranking(keys, count).len() == if count <= keys.len() {
            count
        } else {
            keys.len()
        },
    decreases count,
{
    let r = ranking(keys, count);
    let n = keys.len() as int;
    if count > 0 {
        let before = ranking(keys, (count - 1) as nat);
        law_ranking_is_ordered(keys, (count - 1) as nat);
        let taken = before.to_set();
        let best = best_below(keys, taken, n);
        lemma_best_below(keys, taken, n);
        lemma_best_outranks(keys, taken, n);
        lemma_places_fit(before, n);
        if best < 0 {
            assert(r == before);
            assert forall|p: int| 0 <= p < n implies before.contains(p) by {
                assert(taken.contains(p));
            }
            lemma_all_places(before, n);
        } else {
            assert(r == before.push(best));
            assert(!before.contains(best));
            assert forall|i: int, j: int| 0 <= i < r.len() && 0 <= j < r.len() && i != j implies r[i]
                != r[j] by {
                if i < before.len() {
                    assert(before.contains(before[i]));
                }
                if j < before.len() {
                    assert(before.contains(before[j]));
                }
            }
            assert forall|i: int, j: int| 0 <= i < j < r.len() implies outranks(
                keys,
                #[trigger] r[i],
                #[trigger] r[j],
            ) by {
                if j < before.len() {
                    assert(outranks(keys, before[i], before[j]));
                } else {
                    assert(outranks(keys, before[i], best));
                }
            }
            assert forall|p: int, i: int|
                0 <= p < n && !r.contains(p) && 0 <= i < r.len() implies #[trigger] outranks(
                keys,
                r[i],
                p,
            ) by {
                assert(r[before.len() as int] == best);
                assert(p != best);
                if before.contains(p) {
                    let k = choose|k: int| 0 <= k < before.len() && before[k] == p;
                    assert(r[k] == p);
                }
                if i < before.len() {
                    assert(outranks(keys, before[i], p));
                } else {
                    assert(!taken.contains(p));
                }
            }
            if before.len() == n {
                lemma_all_places(before, n);
                assert(before.contains(best));
            }
        }
    }
}

/// Places below `n`, none twice, are at most `n`.
pub proof fn lemma_places_fit(places: Seq<int>, n: int)
    requires
        0 <= n,
        places.no_duplicates(),
        forall|i: int| 0 <= i < places.len() ==> 0 <= #[trigger] places[i] < n,
    ensures
        places.len() <= n,
        places.len() == n ==> forall|p: int| 0 <= p < n ==> places.contains(p),
{
    let all = vstd::set_lib::set_int_range(0, n);
    vstd::set_lib::lemma_int_range(0, n);
    places.unique_seq_to_set();
    assert(places.to_set().subset_of(all)) by {
        assert forall|p: int| places.to_set().contains(p) implies all.contains(p) by {
            let k = choose|k: int| 0 <= k < places.len() && places[k] == p;
            assert(0 <= places[k] < n);
        }
    }
    vstd::set_lib::lemma_len_subset(places.to_set(), all);
    if places.len() == n {
        vstd::set_lib::lemma_subset_equality(places.to_set(), all);
        assert forall|p: int| 0 <= p < n implies places.contains(p) by {
            assert(all.contains(p));
            assert(places.to_set().contains(p));
        }
    }
}

/// Places below `n`, none twice, that hold every place below `n` are `n`.
pub proof fn lemma_all_places(places: Seq<int>, n: int)
    requires
        0 <= n,
        places.no_duplicates(),
        forall|i: int| 0 <= i < places.len() ==> 0 <= #[trigger] places[i] < n,
        forall|p: int| 0 <= p < n ==> places.contains(p),
    ensures
        places.len() == n,
{
    let all = vstd::set_lib::set_int_range(0, n);
    vstd::set_lib::lemma_int_range(0, n);
    places.unique_seq_to_set();
    assert(places.to_set() =~= all) by {
        assert forall|p: int| places.to_set().contains(p) <==> all.contains(p) by {
            if places.to_set().contains(p) {
                let k = choose|k: int| 0 <= k < places.len() && places[k] == p;
                assert(0 <= places[k] < n);
            }
            if all.contains(p) {
                assert(places.contains(p));
            }
        }
    }
}

/// The lines that can be ranked: those of at least four words.
pub open spec fn rankable(all: Seq<Seq<char>>) -> Seq<Seq<char>>
    decreases all.len(),
{
    if all.len() == 0 {
        Seq::empty()
    } else {
        let before = rankable(all.drop_last());
        if words(all.last()).len() >= 4 {
            before.push(all.last())
        } else {
            before
        }
    }
}

/// What a line is ranked by: its third word, or its fourth where memory
/// counts, read as a decimal number; zero where it is none.
pub open spec fn rank_key(line: Seq<char>, memory: bool) -> int {
    let w = words(line);
    let field = if memory {
        w[3]
    } else {
        w[2]
    };
    match parsed_decimal(field) {
        Some(t) => t,
        None => 0,
    }
}

/// The keys of the given lines.
pub open spec fn rank_keys(candidates: Seq<Seq<char>>, memory: bool) -> Seq<int> {
    Seq::new(candidates.len(), |i: int| rank_key(candidates[i], memory))
}

/// The heading, and behind it the `limit` lines that rank highest.
pub open spec fn ranked_listing(all: Seq<Seq<char>>, memory: bool, limit: nat) -> Seq<Seq<char>> {
    if all.len() > 1 {
        let candidates = rankable(all.drop_first());
        let order = ranking(rank_keys(candidates, memory), limit);
        seq![all[0]] + Seq::new(order.len(), |j: int| candidates[order[j]])
    } else {
        all
    }
}

/// At most the heading and `limit` lines of a listing.
pub open spec fn limited(listed: Seq<Seq<char>>, limit: nat) -> Seq<Seq<char>> {
    if listed.len() > limit + 1 {
        listed.take((limit + 1) as int)
    } else {
        listed
    }
}

/// The state of the process that a line of `ps` describes: on macOS the
/// first character of the third word of a line of more than two words,
/// elsewhere the first character of the line.
pub open spec fn status_of(line: Seq<char>, platform: Platform) -> Option<char> {
    if platform == Platform::MacOS {
        let w = words(line);
        if w.len() > 2 && w[2].len() > 0 {
            Some(w[2][0])
        } else {
            None
        }
    } else if line.len() > 0 {
        Some(line[0])
    } else {
        None
    }
}

/// The count under `key`, raised by one.
pub open spec fn bumped(members: Seq<MemberSpec>, key: Seq<char>) -> Seq<MemberSpec> {
    let now = match JsonSpec::Object(members).member_unsigned(key) {
        Some(n) => n,
        None => 0,
    };
    if now + 1 <= u64::MAX {
        with_member(members, key, JsonSpec::Number(decimal_text(now + 1)))
    } else {
        members
    }
}

/// How many of the first `upto` lines, the heading apart, are in which
/// state.
pub open spec fn status_tally(all: Seq<Seq<char>>, platform: Platform, upto: int) -> Seq<MemberSpec>
    decreases upto,
{
    if upto <= 1 || upto > all.len() {
        Seq::empty()
    } else {
        let before = status_tally(all, platform, upto - 1);
        match status_of(all[upto - 1], platform) {
            Some(c) => bumped(before, seq![c]),
            None => before,
        }
    }
}

/// The number of lines behind the heading.
pub open spec fn lines_behind_heading(all: Seq<Seq<char>>) -> nat {
    if all.len() == 0 {
        0
    } else {
        (all.len() - 1) as nat
    }
}

/// What a monitoring tool makes of the outcome of its command.
pub open spec fn monitor_result(
    name: Seq<char>,
    args: JsonSpec,
    platform: Platform,
    outcome: OutcomeSpec,
) -> ResultSpec {
    if name == "sys-proc-top"@ {
        match outcome {
            OutcomeSpec::Completed { stdout, stderr, success } => {
                let limit = unsigned_or(args, "limit"@, 10);
                let listed = if platform == Platform::MacOS {
                    ranked_listing(lines(stdout), by_memory(args), limit)
                } else {
                    lines(stdout)
                };
                finished(
                    name,
                    JsonSpec::Object(
                        seq![
                            texts_member("processes"@, limited(listed, limit)),
                            text_member("sort_by"@, text_or(args, "sort_by"@, "cpu"@)),
                            number_member("limit"@, limit),
                            flag_member("success"@, success),
                        ],
                    ),
                    success,
                    stderr,
                )
            },
            _ => not_run(name, "Failed to get process top info: "@, outcome),
        }
    } else {
        match outcome {
            OutcomeSpec::Completed { stdout, stderr, success } => {
                let all = lines(stdout);
                finished(
                    name,
                    JsonSpec::Object(
                        seq![
                            texts_member("process_lines"@, all),
                            object_member(
                                "status_stats"@,
                                status_tally(all, platform, all.len() as int),
                            ),
                            number_member("total_processes"@, lines_behind_heading(all)),
                            flag_member("success"@, success),
                        ],
                    ),
                    success,
                    stderr,
                )
            },
            _ => not_run(name, "Failed to get process stats: "@, outcome),
        }
    }
}

/// The schemas of the monitoring tools.
pub fn create_monitor_functions() -> (r: Vec<FunctionDefinition>)
    ensures
        definition_views(r@) == monitor_schemas(),
{
    let mut r: Vec<FunctionDefinition> = Vec::new();
    let mut top: Vec<FunctionParameter> = Vec::new();
    top.push(
        FunctionParameter::new("sort_by", "排序方式: 'cpu' 或 'memory'，默认为 'cpu'", "string", false),
    );
    top.push(FunctionParameter::new("limit", "显示进程数量限制，默认为10", "number", false));
    r.push(
        FunctionDefinition::new("sys-proc-top", "显示高资源消耗进程列表，可按CPU或内存排序", top),
    );
    r.push(
        FunctionDefinition::new("sys-proc-stats", "显示进程统计信息，包括进程状态分布", Vec::new()),
    );
    proof {
        let got = definition_views(r@);
        let want = monitor_schemas();
        assert(got.len() == want.len());
        assert(got[0].parameters =~= want[0].parameters);
        assert(got[1].parameters =~= want[1].parameters);
        assert(got =~= want);
    }
    r
}

/// The keys of a list of numbers.
pub open spec fn key_ints(keys: Seq<i64>) -> Seq<int> {
    Seq::new(keys.len(), |i: int| keys[i] as int)
}

/// The places of a list of places.
pub open spec fn place_ints(places: Seq<usize>) -> Seq<int> {
    Seq::new(places.len(), |i: int| places[i] as int)
}

/// The place of the greatest key that is not taken, or none.
fn pick_best(keys: &Vec<i64>, taken: &Vec<bool>, Ghost(chosen): Ghost<Set<int>>) -> (r: Option<
    usize,
>)
    requires
        taken@.len() == keys@.len(),
        forall|j: int| 0 <= j < keys@.len() ==> taken@[j] == chosen.contains(j),
    ensures
        match r {
            Some(b) => b == best_below(key_ints(keys@), chosen, keys@.len() as int),
            None => best_below(key_ints(keys@), chosen, keys@.len() as int) < 0,
        },
{
    let mut best: Option<usize> = None;
    let mut n: usize = 0;
    while n < keys.len()
        invariant
            0 <= n <= keys@.len(),
            taken@.len() == keys@.len(),
            forall|j: int| 0 <= j < keys@.len() ==> taken@[j] == chosen.contains(j),
            match best {
                Some(b) => b < n && b == best_below(key_ints(keys@), chosen, n as int),
                None => best_below(key_ints(keys@), chosen, n as int) < 0,
            },
        decreases keys@.len() - n,
    {
        if !taken[n] {
            match best {
                Some(b) => {
                    if keys[n] > keys[b] {
                        best = Some(n);
                    }
                },
                None => {
                    best = Some(n);
                },
            }
        }
        n += 1;
    }
    best
}

/// The places of the `count` greatest keys, the greatest first, equal keys
/// in their order.
pub fn rank(keys: &Vec<i64>, count: u64) -> (order: Vec<usize>)
    ensures
        place_ints(order@) == ranking(key_ints(keys@), count as nat),
        forall|j: int| 0 <= j < order@.len() ==> (#[trigger] order@[j]) < keys@.len(),
{
    let mut taken: Vec<bool> = Vec::new();
    let mut t: usize = 0;
    while t < keys.len()
        invariant
            0 <= t <= keys@.len(),
            taken@.len() == t,
            forall|j: int| 0 <= j < t ==> !(#[trigger] taken@[j]),
        decreases keys@.len() - t,
    {
        taken.push(false);
        t += 1;
    }
    let mut order: Vec<usize> = Vec::new();
    let mut k: u64 = 0;
    assert(place_ints(order@) =~= ranking(key_ints(keys@), 0));
    while k < count
        invariant
            0 <= k <= count,
            taken@.len() == keys@.len(),
            place_ints(order@) == ranking(key_ints(keys@), k as nat),
            forall|j: int|
                0 <= j < keys@.len() ==> taken@[j] == place_ints(order@).to_set().contains(j),
            forall|j: int| 0 <= j < order@.len() ==> (#[trigger] order@[j]) < keys@.len(),
        decreases count - k,
    {
        let ghost chosen = place_ints(order@).to_set();
        let ghost before = place_ints(order@);
        proof {
            lemma_best_below(key_ints(keys@), chosen, keys@.len() as int);
        }
        match pick_best(keys, &taken, Ghost(chosen)) {
            Some(b) => {
                order.push(b);
                taken.set(b, true);
                proof {
                    assert(place_ints(order@) =~= before.push(b as int));
                    assert forall|j: int| 0 <= j < keys@.len() implies taken@[j] == place_ints(
                        order@,
                    ).to_set().contains(j) by {
                        let after = place_ints(order@);
                        if j == b {
                            assert(after[before.len() as int] == j);
                        } else {
                            if before.contains(j) {
                                let q = choose|q: int| 0 <= q < before.len() && before[q] == j;
                                assert(after[q] == j);
                            }
                            if after.contains(j) {
                                let q = choose|q: int| 0 <= q < after.len() && after[q] == j;
                                assert(q < before.len());
                                assert(before[q] == j);
                            }
                        }
                    }
                }
                k += 1;
            },
            None => {
                proof {
                    lemma_ranking_stalls(key_ints(keys@), k as nat, count as nat);
                }
                return order;
            },
        }
    }
    order
}

/// The lines of at least four words, and what each is ranked by.
fn rank_candidates(all: &Vec<String>, memory: bool) -> (r: (Vec<String>, Vec<i64>))
    requires
        all@.len() > 0,
    ensures
        views(r.0@) == rankable(views(all@).drop_first()),
        key_ints(r.1@) == rank_keys(views(r.0@), memory),
{
    let ghost rest = views(all@).drop_first();
    let mut candidates: Vec<String> = Vec::new();
    let mut keys: Vec<i64> = Vec::new();
    let mut i: usize = 1;
    proof {
        assert(rest.take(0) =~= Seq::<Seq<char>>::empty());
        assert(views(candidates@) =~= rankable(rest.take(0)));
        assert(key_ints(keys@) =~= rank_keys(views(candidates@), memory));
    }
    while i < all.len()
        invariant
            1 <= i <= all@.len(),
            rest == views(all@).drop_first(),
            views(candidates@) == rankable(rest.take(i - 1)),
            key_ints(keys@) == rank_keys(views(candidates@), memory),
        decreases all@.len() - i,
    {
        proof {
            assert(rest.take(i as int).drop_last() =~= rest.take(i - 1));
            assert(rest.take(i as int).last() == all@[i as int]@);
        }
        let parts = split_words(all[i].as_str());
        if parts.len() >= 4 {
            let field = if memory {
                parts[3].as_str()
            } else {
                parts[2].as_str()
            };
            assert(views(parts@)[2] == parts@[2]@);
            assert(views(parts@)[3] == parts@[3]@);
            let key: i64 = match Decimal::parse(field) {
                Some(d) => d.thousandths,
                None => 0,
            };
            let ghost before = views(candidates@);
            let ghost keys_before = key_ints(keys@);
            candidates.push(all[i].clone());
            keys.push(key);
            proof {
                assert(views(candidates@) =~= before.push(all@[i as int]@));
                assert(key_ints(keys@) =~= keys_before.push(key as int));
                assert(key_ints(keys@) =~= rank_keys(views(candidates@), memory));
            }
        } else {
            assert(views(parts@).len() == parts@.len());
        }
        i += 1;
    }
    assert(rest.take(all@.len() - 1) =~= rest);
    (candidates, keys)
}

/// The heading, and behind it the `limit` lines that rank highest.
pub fn ranked_lines(all: &Vec<String>, memory: bool, limit: u64) -> (out: Vec<String>)
    ensures
        views(out@) == ranked_listing(views(all@), memory, limit as nat),
{
    if all.len() <= 1 {
        return clone_texts(all);
    }
    let (candidates, keys) = rank_candidates(all, memory);
    let order = rank(&keys, limit);
    let mut out: Vec<String> = Vec::new();
    out.push(all[0].clone());
    let ghost places = place_ints(order@);
    let ghost picked = Seq::new(places.len(), |j: int| views(candidates@)[places[j]]);
    assert(key_ints(keys@).len() == candidates@.len());
    let mut j: usize = 0;
    assert(views(out@) =~= seq![all@[0]@] + picked.take(0));
    while j < order.len()
        invariant
            0 <= j <= order@.len(),
            all@.len() > 1,
            keys@.len() == candidates@.len(),
            places == place_ints(order@),
            picked == Seq::new(places.len(), |j: int| views(candidates@)[places[j]]),
            forall|q: int| 0 <= q < order@.len() ==> (#[trigger] order@[q]) < keys@.len(),
            views(out@) == seq![all@[0]@] + picked.take(j as int),
        decreases order@.len() - j,
    {
        let ghost before = views(out@);
        let place = order[j];
        out.push(candidates[place].clone());
        proof {
            assert(views(out@) =~= before.push(candidates@[place as int]@));
            assert(picked.take(j + 1) =~= picked.take(j as int).push(picked[j as int]));
            assert(picked[j as int] == candidates@[place as int]@);
            assert(before.push(candidates@[place as int]@) =~= seq![all@[0]@] + picked.take(j + 1));
        }
        j += 1;
    }
    assert(picked.take(order@.len() as int) =~= picked);
    assert(views(all@)[0] == all@[0]@);
    out
}

/// At most the heading and `limit` lines of a listing.
pub fn limit_lines(listed: Vec<String>, limit: u64) -> (out: Vec<String>)
    ensures
        views(out@) == limited(views(listed@), limit as nat),
{
    let n = listed.len();
    if n == 0 || (n - 1) as u64 <= limit {
        return listed;
    }
    let keep: usize = (limit + 1) as usize;
    let mut out: Vec<String> = Vec::new();
    let mut i: usize = 0;
    while i < keep
        invariant
            0 <= i <= keep < listed@.len(),
            out@.len() == i,
            forall|k: int| 0 <= k < i ==> (#[trigger] out@[k])@ == listed@[k]@,
        decreases keep - i,
    {
        out.push(listed[i].clone());
        i += 1;
    }
    assert(views(out@) =~= views(listed@).take(limit + 1));
    out
}

/// Raises the count under `key` by one.
fn bump(members: &mut Vec<JsonMember>, key: &str)
    ensures
        entry_views(final(members)@) == bumped(entry_views(old(members)@), key@),
{
    let now: u64 = match member_u64(members, key) {
        Some(n) => n,
        None => 0,
    };
    if now < u64::MAX {
        set_member(members, key, JsonValue::unsigned(now + 1));
    }
}

/// How many of the lines, the heading apart, are in which state.
pub fn tally_states(all: &Vec<String>, platform: &Platform) -> (members: Vec<JsonMember>)
    ensures
        entry_views(members@) == status_tally(views(all@), *platform, all@.len() as int),
{
    let mut members: Vec<JsonMember> = Vec::new();
    if all.len() <= 1 {
        assert(entry_views(members@) =~= Seq::<MemberSpec>::empty());
        return members;
    }
    let mut i: usize = 1;
    assert(entry_views(members@) =~= status_tally(views(all@), *platform, 1));
    while i < all.len()
        invariant
            1 <= i <= all@.len(),
            entry_views(members@) == status_tally(views(all@), *platform, i as int),
        decreases all@.len() - i,
    {
        assert(views(all@)[i as int] == all@[i as int]@);
        let state: Option<char> = match platform {
            Platform::MacOS => {
                let parts = split_words(all[i].as_str());
                if parts.len() > 2 {
                    assert(views(parts@)[2] == parts@[2]@);
                    let chars = chars_of(parts[2].as_str());
                    if chars.len() > 0 {
                        Some(chars[0])
                    } else {
                        None
                    }
                } else {
                    assert(views(parts@).len() == parts@.len());
                    None
                }
            },
            _ => {
                let chars = chars_of(all[i].as_str());
                if chars.len() > 0 {
                    Some(chars[0])
                } else {
                    None
                }
            },
        };
        match state {
            Some(c) => {
                let mut one: Vec<char> = Vec::new();
                one.push(c);
                let key = text_of(&one, 0, 1);
                assert(key@ =~= seq![c]);
                bump(&mut members, key.as_str());
            },
            None => {},
        }
        i += 1;
    }
    members
}

impl MonitorExecutor {
    /// Whether `name` is one of the executor's tools.
    pub fn knows(name: &str) -> (r: bool)
        ensures
            r == monitor_known(name@),
    {
        same_text(name, "sys-proc-top") || same_text(name, "sys-proc-stats")
    }

    /// Whether the processes are ranked by memory.
    pub fn ranks_by_memory(args: &JsonValue) -> (r: bool)
        ensures
            r == by_memory(args@),
    {
        let sort_by = text_argument(args, "sort_by", "cpu");
        same_text(sort_by.as_str(), "memory") || same_text(sort_by.as_str(), "mem")
    }

    /// The command that the tool `name` asks for on the arguments `args`.
    pub fn plan(name: &str, args: &JsonValue, platform: &Platform) -> (r: AiResult<CommandRequest>)
        requires
            monitor_known(name@),
        ensures
            follows(r, monitor_plan(name@, args@, *platform)),
    {
        let mac = match platform {
            Platform::MacOS => true,
            _ => false,
        };
        if same_text(name, "sys-proc-top") {
            let words = if mac {
                args1("aux")
            } else if MonitorExecutor::ranks_by_memory(args) {
                args2("aux", "--sort=-%mem")
            } else {
                args2("aux", "--sort=-%cpu")
            };
            Ok(new_request("ps", words, 15))
        } else {
            let words = if mac {
                args1("ax")
            } else {
                args2("axo", "pid,stat,comm")
            };
            Ok(new_request("ps", words, 10))
        }
    }

    /// What the tool `name` makes of the outcome of its command.
    pub fn complete(name: &str, args: &JsonValue, platform: &Platform, outcome: &CommandOutcome)
        -> (r: FunctionResult)
        requires
            monitor_known(name@),
        ensures
            r@ == monitor_result(name@, args@, *platform, outcome@),
    {
        if same_text(name, "sys-proc-top") {
            match outcome {
                CommandOutcome::Completed(output) => {
                    let limit = unsigned_argument(args, "limit", 10);
                    let all = split_lines(output.stdout.as_str());
                    let listed = match platform {
                        Platform::MacOS => ranked_lines(
                            &all,
                            MonitorExecutor::ranks_by_memory(args),
                            limit,
                        ),
                        _ => all,
                    };
                    let shown = limit_lines(listed, limit);
                    let sort_by = text_argument(args, "sort_by", "cpu");
                    let mut members: Vec<JsonMember> = Vec::new();
                    members.push(JsonMember::texts("processes", &shown));
                    members.push(JsonMember::text("sort_by", sort_by.as_str()));
                    members.push(JsonMember::number("limit", limit));
                    members.push(JsonMember::flag("success", output.success));
                    let ghost want = seq![
                        texts_member("processes"@, views(shown@)),
                        text_member("sort_by"@, sort_by@),
                        number_member("limit"@, limit as nat),
                        flag_member("success"@, output.success),
                    ];
                    assert(entry_views(members@) =~= want);
                    finished_result(name, object_of(members), output)
                },
                _ => not_run_result(name, "Failed to get process top info: ", outcome),
            }
        } else {
            match outcome {
                CommandOutcome::Completed(output) => {
                    let all = split_lines(output.stdout.as_str());
                    let tally = tally_states(&all, platform);
                    let behind: u64 = if all.len() == 0 {
                        0
                    } else {
                        (all.len() - 1) as u64
                    };
                    let mut members: Vec<JsonMember> = Vec::new();
                    members.push(JsonMember::texts("process_lines", &all));
                    members.push(JsonMember::new("status_stats", object_of(tally)));
                    members.push(JsonMember::number("total_processes", behind));
                    members.push(JsonMember::flag("success", output.success));
                    let ghost lined = lines(output.stdout@);
                    let ghost want = seq![
                        texts_member("process_lines"@, lined),
                        object_member(
                            "status_stats"@,
                            status_tally(lined, *platform, lined.len() as int),
                        ),
                        number_member("total_processes"@, lines_behind_heading(lined)),
                        flag_member("success"@, output.success),
                    ];
                    assert(entry_views(members@) =~= want);
                    finished_result(name, object_of(members), output)
                },
                _ => not_run_result(name, "Failed to get process stats: ", outcome),
            }
        }
    }
}

impl FunctionExecutor for MonitorExecutor {
    fn supported_functions(&self) -> (names: Vec<String>)
        ensures
            views(names@) == monitor_names(),
    {
        let mut names: Vec<String> = Vec::new();
        names.push("sys-proc-top".to_string());
        names.push("sys-proc-stats".to_string());
        assert(views(names@) =~= monitor_names());
        names
    }

    fn get_function_schema(&self, function_name: &str) -> (schema: Option<FunctionDefinition>)
        ensures
            schema is Some <==> schema_named(monitor_schemas(), function_name@) is Some,
            schema matches Some(d) ==> schema_named(monitor_schemas(), function_name@) == Some(d@),
    {
        find_schema(create_monitor_functions(), function_name)
    }

    fn begin(&self, call: &FunctionCall, platform: &Platform) -> (step: AiResult<ExecutorStep>)
        ensures
            !monitor_known(call.function.name@) ==> unknown(step, "Unknown monitor function"@),
            monitor_known(call.function.name@) ==> match monitor_arguments(
                call.function.name@,
                call.function.arguments@,
            ) {
                None => arguments_refused(step, call.function.arguments@),
                Some(args) => starts(step, monitor_plan(call.function.name@, args, *platform)),
            },
    {
        let name = call.function.name.as_str();
        if !MonitorExecutor::knows(name) {
            return unknown_function("Unknown monitor function");
        }
        let args = match MonitorExecutor::arguments(name, call.function.arguments.as_str()) {
            Ok(args) => args,
            Err(e) => {
                return Err(e);
            },
        };
        match MonitorExecutor::plan(name, &args, platform) {
            Ok(request) => Ok(run_first(request)),
            Err(e) => Err(e),
        }
    }

    fn resume(
        &self,
        call: &FunctionCall,
        platform: &Platform,
        pending: PendingCommand,
        outcome: CommandOutcome,
    ) -> (step: AiResult<ExecutorStep>)
        ensures
            !monitor_known(call.function.name@) ==> unknown(step, "Unknown monitor function"@),
            monitor_known(call.function.name@) ==> match monitor_arguments(
                call.function.name@,
                call.function.arguments@,
            ) {
                None => arguments_refused(step, call.function.arguments@),
                Some(args) => step matches Ok(s) && s@ == StepSpec::Done(
                    monitor_result(call.function.name@, args, *platform, outcome@),
                ),
            },
    {
        let name = call.function.name.as_str();
        if !MonitorExecutor::knows(name) {
            return unknown_function("Unknown monitor function");
        }
        let args = match MonitorExecutor::arguments(name, call.function.arguments.as_str()) {
            Ok(args) => args,
            Err(e) => {
                return Err(e);
            },
        };
        Ok(ExecutorStep::Done(MonitorExecutor::complete(name, &args, platform, &outcome)))
    }
}

/// The arguments that a monitoring tool works on: none for
/// `sys-proc-stats`, else what the text of the call carries.
pub open spec fn monitor_arguments(name: Seq<char>, arguments: Seq<char>) -> Option<JsonSpec> {
    if name == "sys-proc-stats"@ {
        Some(JsonSpec::Object(Seq::empty()))
    } else {
        parsed_arguments(arguments)
    }
}

impl MonitorExecutor {
    /// The arguments that the tool `name` works on.
    pub fn arguments(name: &str, arguments: &str) -> (r: AiResult<JsonValue>)
        ensures
            r is Ok <==> monitor_arguments(name@, arguments@) is Some,
            r matches Ok(v) ==> monitor_arguments(name@, arguments@) == Some(v@),
            r is Err ==> arguments_refused(r, arguments@),
    {
        if same_text(name, "sys-proc-stats") {
            Ok(JsonValue::empty_object())
        } else {
            parse_function_arguments(arguments)
        }
    }
}

} // verus!
