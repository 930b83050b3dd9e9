//! The query behind the root-task listing: a recursive common table
//! expression that rolls up each root's descendants into four flags, and
//! the filter on the status those flags roll up to, with its bind values.
use vstd::prelude::*;
use crate::task_enum::{status_text, type_text, TaskStatus, TaskType};
use crate::task_tree::derived_status;
use crate::text::{chars_of, owned, push_chars, str_eq};

verus! {

/// The common table expression that computes, for every root task, whether
/// its descendants include an active, a failed, a completed and a killed
/// task.
pub open spec fn roots_cte_text() -> Seq<char> {
    "WITH RECURSIVE\ndescendants AS (\nSELECT t.id AS root_id,\nc.id AS descendant_id\nFROM tasks t\nJOIN tasks c ON c.parent_id = t.id\nWHERE t.parent_id IS NULL\nUNION ALL\nSELECT d.root_id, c.id\nFROM descendants d\nJOIN tasks c ON c.parent_id = d.descendant_id\n),\nroot_flags AS (\nSELECT\nd.root_id,\nBOOL_OR(t2.status::text IN ('pending','queued','running')) AS has_active,\nBOOL_OR(t2.status::text IN ('failed','killed'))            AS has_failed,\nBOOL_OR(t2.status::text = 'done')                          AS has_completed,\nBOOL_OR(t2.status::text = 'killed')                        AS has_killed_terminal\nFROM descendants d\nJOIN tasks t2 ON t2.id = d.descendant_id\nGROUP BY d.root_id\n)"@
}

/// The common table expression of the root listing.
pub fn roots_cte() -> (r: String)
    ensures
        r@ == roots_cte_text(),
{
    owned("WITH RECURSIVE\ndescendants AS (\nSELECT t.id AS root_id,\nc.id AS descendant_id\nFROM tasks t\nJOIN tasks c ON c.parent_id = t.id\nWHERE t.parent_id IS NULL\nUNION ALL\nSELECT d.root_id, c.id\nFROM descendants d\nJOIN tasks c ON c.parent_id = d.descendant_id\n),\nroot_flags AS (\nSELECT\nd.root_id,\nBOOL_OR(t2.status::text IN ('pending','queued','running')) AS has_active,\nBOOL_OR(t2.status::text IN ('failed','killed'))            AS has_failed,\nBOOL_OR(t2.status::text = 'done')                          AS has_completed,\nBOOL_OR(t2.status::text = 'killed')                        AS has_killed_terminal\nFROM descendants d\nJOIN tasks t2 ON t2.id = d.descendant_id\nGROUP BY d.root_id\n)")
}

/// The SQL condition on the rolled-up flags for a derived status filter;
/// an unknown status selects nothing.
pub open spec fn status_clause(s: Seq<char>) -> Seq<char> {
    if s == "killed"@ {
        " AND COALESCE(rf.has_active, false) = false AND COALESCE(rf.has_failed, false) = true AND COALESCE(rf.has_completed, false) = false AND COALESCE(rf.has_killed_terminal, false) = COALESCE(rf.has_failed, false)"@
    } else if s == "failed"@ {
        " AND COALESCE(rf.has_active, false) = false AND COALESCE(rf.has_failed, false) = true AND COALESCE(rf.has_completed, false) = false AND (COALESCE(rf.has_killed_terminal, false) = false OR COALESCE(rf.has_completed, false) = true)"@
    } else if s == "partial_success"@ {
        " AND COALESCE(rf.has_active, false) = false AND COALESCE(rf.has_failed, false) = true AND COALESCE(rf.has_completed, false) = true"@
    } else if s == "running"@ {
        " AND COALESCE(rf.has_active, false) = true"@
    } else if s == "completed"@ {
        " AND COALESCE(rf.has_active, false) = false AND COALESCE(rf.has_failed, false) = false AND COALESCE(rf.has_completed, false) = true"@
    } else if s == "pending"@ {
        " AND COALESCE(rf.has_active, false) = false AND COALESCE(rf.has_failed, false) = false AND COALESCE(rf.has_completed, false) = false"@
    } else {
        " AND false"@
    }
}

/// The SQL condition for the derived status `s`.
pub fn status_clause_of(s: &str) -> (r: &'static str)
    ensures
        r@ == status_clause(s@),
{
    if str_eq(s, "killed") {
        " AND COALESCE(rf.has_active, false) = false AND COALESCE(rf.has_failed, false) = true AND COALESCE(rf.has_completed, false) = false AND COALESCE(rf.has_killed_terminal, false) = COALESCE(rf.has_failed, false)"
    } else if str_eq(s, "failed") {
        " AND COALESCE(rf.has_active, false) = false AND COALESCE(rf.has_failed, false) = true AND COALESCE(rf.has_completed, false) = false AND (COALESCE(rf.has_killed_terminal, false) = false OR COALESCE(rf.has_completed, false) = true)"
    } else if str_eq(s, "partial_success") {
        " AND COALESCE(rf.has_active, false) = false AND COALESCE(rf.has_failed, false) = true AND COALESCE(rf.has_completed, false) = true"
    } else if str_eq(s, "running") {
        " AND COALESCE(rf.has_active, false) = true"
    } else if str_eq(s, "completed") {
        " AND COALESCE(rf.has_active, false) = false AND COALESCE(rf.has_failed, false) = false AND COALESCE(rf.has_completed, false) = true"
    } else if str_eq(s, "pending") {
        " AND COALESCE(rf.has_active, false) = false AND COALESCE(rf.has_failed, false) = false AND COALESCE(rf.has_completed, false) = false"
    } else {
        " AND false"
    }
}

/// Which roots the condition for status `s` selects, given their rolled-up
/// flags (a root without descendants has all four false).
pub open spec fn status_filter_selects(
    s: Seq<char>,
    has_active: bool,
    has_failed: bool,
    has_completed: bool,
    has_killed_terminal: bool,
) -> bool {
    if s == "killed"@ {
        !has_active && has_failed && !has_completed && has_killed_terminal == has_failed
    } else if s == "failed"@ {
        !has_active && has_failed && !has_completed && (!has_killed_terminal || has_completed)
    } else if s == "partial_success"@ {
        !has_active && has_failed && has_completed
    } else if s == "running"@ {
        has_active
    } else if s == "completed"@ {
        !has_active && !has_failed && has_completed
    } else if s == "pending"@ {
        !has_active && !has_failed && !has_completed
    } else {
        false
    }
}

/// A value bound to a positional parameter of the query.
#[derive(Debug)]
pub enum BindValue {
    Text(String),
    Int(i32),
}

/// The filter of the root listing: the status condition, then the task
/// type as parameter `$1`, then the crawl type (read from the task's
/// parameters) as the next parameter.
pub open spec fn roots_filter_text(
    task_type: Option<TaskType>,
    crawl_type: Option<i32>,
    status: Option<Seq<char>>,
) -> Seq<char> {
    let base = match status {
        Some(s) => status_clause(s),
        None => Seq::empty(),
    };
    let with_type = if task_type is Some {
        base + " AND t.task_type::text = $1"@
    } else {
        base
    };
    if crawl_type is Some {
        with_type + if task_type is Some {
            " AND (t.params::json->>'crawl_type')::int = $2"@
        } else {
            " AND (t.params::json->>'crawl_type')::int = $1"@
        }
    } else {
        with_type
    }
}

/// Whether `binds` are the values of the filter's parameters, in order:
/// the task type's text, then the crawl type.
pub open spec fn binds_match(binds: Seq<BindValue>, task_type: Option<TaskType>, crawl_type: Option<i32>) -> bool {
    match (task_type, crawl_type) {
        (Some(t), Some(c)) => binds.len() == 2 && (binds[0] matches BindValue::Text(x) && x@ == type_text(t))
            && binds[1] == BindValue::Int(c),
        (Some(t), None) => binds.len() == 1 && (binds[0] matches BindValue::Text(x) && x@ == type_text(t)),
        (None, Some(c)) => binds.len() == 1 && binds[0] == BindValue::Int(c),
        (None, None) => binds.len() == 0,
    }
}

fn push_str(out: &mut String, s: &str)
    ensures
        final(out)@ == old(out)@ + s@,
{
    let v = chars_of(s);
    push_chars(out, &v);
}

/// The common table expression, the filter and the bind values of the root
/// listing, for an optional task type, crawl type and derived status. The
/// `n`-th bind value is the one that the filter's `$n` names.
pub fn build_roots_cte_and_filters(
    task_type: Option<TaskType>,
    crawl_type: Option<i32>,
    derived_status: Option<&str>,
) -> (r: (String, String, Vec<BindValue>))
    ensures
        r.0@ == roots_cte_text(),
        r.1@ == roots_filter_text(
            task_type,
            crawl_type,
            match derived_status {
                Some(s) => Some(s@),
                None => None,
            },
        ),
        binds_match(r.2@, task_type, crawl_type),
{
    let mut binds: Vec<BindValue> = Vec::new();
    if let Some(t) = task_type {
        binds.push(BindValue::Text(owned(t.as_str())));
    }
    if let Some(c) = crawl_type {
        binds.push(BindValue::Int(c));
    }
    let mut filter = String::new();
    if let Some(s) = derived_status {
        push_str(&mut filter, status_clause_of(s));
    }
    if task_type.is_some() {
        push_str(&mut filter, " AND t.task_type::text = $1");
    }
    if crawl_type.is_some() {
        if task_type.is_some() {
            push_str(&mut filter, " AND (t.params::json->>'crawl_type')::int = $2");
        } else {
            push_str(&mut filter, " AND (t.params::json->>'crawl_type')::int = $1");
        }
    }
    proof {
        let st = match derived_status {
            Some(s) => Some(s@),
            None => None,
        };
        assert(filter@ =~= roots_filter_text(task_type, crawl_type, st));
    }
    (roots_cte(), filter, binds)
}

/// The status filter of the root listing is the status the descendants
/// roll up to: for each status it selects exactly the roots whose rollup is
/// that status, and for any other text it selects none.
pub proof fn law_status_filter_agrees_with_rollup(
    s: Seq<char>,
    has_active: bool,
    has_failed: bool,
    has_completed: bool,
    has_killed_terminal: bool,
)
    ensures
        status_filter_selects(s, has_active, has_failed, has_completed, has_killed_terminal)
            <==> derived_status(has_active, has_failed, has_completed, has_killed_terminal) == s,
{
    reveal_strlit("running");
    reveal_strlit("killed");
    reveal_strlit("partial_success");
    reveal_strlit("failed");
    reveal_strlit("completed");
    reveal_strlit("pending");
    assert("killed"@.len() != "running"@.len());
    assert("partial_success"@.len() != "running"@.len());
    assert("partial_success"@.len() != "killed"@.len());
    assert("failed"@.len() != "running"@.len());
    assert("failed"@[0] != "killed"@[0]);
    assert("failed"@.len() != "partial_success"@.len());
    assert("completed"@.len() != "running"@.len());
    assert("completed"@.len() != "killed"@.len());
    assert("completed"@.len() != "partial_success"@.len());
    assert("completed"@.len() != "failed"@.len());
    assert("pending"@[0] != "running"@[0]);
    assert("pending"@.len() != "killed"@.len());
    assert("pending"@.len() != "partial_success"@.len());
    assert("pending"@.len() != "failed"@.len());
    assert("pending"@.len() != "completed"@.len());
}

/// One of the four flags that the rollup computes for each root.
pub enum RootFlag {
    Active,
    Failed,
    Completed,
    KilledTerminal,
}

/// A condition on the rolled-up flags, as the status filter writes it.
pub enum FlagCondition {
    /// The flag has this value.
    Is(RootFlag, bool),
    /// The two flags have the same value.
    Same(RootFlag, RootFlag),
    /// One of two flags has its given value.
    Either(RootFlag, bool, RootFlag, bool),
    /// Nothing is selected.
    Never,
}

/// The SQL column expression of a flag; a root without descendants reads
/// as false.
pub open spec fn flag_column(f: RootFlag) -> Seq<char> {
    match f {
        RootFlag::Active => "COALESCE(rf.has_active, false)"@,
        RootFlag::Failed => "COALESCE(rf.has_failed, false)"@,
        RootFlag::Completed => "COALESCE(rf.has_completed, false)"@,
        RootFlag::KilledTerminal => "COALESCE(rf.has_killed_terminal, false)"@,
    }
}

/// An SQL boolean literal.
pub open spec fn sql_bool(b: bool) -> Seq<char> {
    if b {
        "true"@
    } else {
        "false"@
    }
}

/// How a condition is written in SQL.
pub open spec fn condition_sql(c: FlagCondition) -> Seq<char> {
    match c {
        FlagCondition::Is(f, b) => flag_column(f) + " = "@ + sql_bool(b),
        FlagCondition::Same(f, g) => flag_column(f) + " = "@ + flag_column(g),
        FlagCondition::Either(f, b, g, d) => "("@ + flag_column(f) + " = "@ + sql_bool(b) + " OR "@
            + flag_column(g) + " = "@ + sql_bool(d) + ")"@,
        FlagCondition::Never => "false"@,
    }
}

/// A list of conditions written as SQL, each one after `AND`.
pub open spec fn conditions_sql(cs: Seq<FlagCondition>) -> Seq<char>
    decreases cs.len(),
{
    if cs.len() == 0 {
        Seq::empty()
    } else {
        conditions_sql(cs.drop_last()) + " AND "@ + condition_sql(cs.last())
    }
}

/// The value of a flag among the four rolled-up flags.
pub open spec fn flag_value(
    f: RootFlag,
    has_active: bool,
    has_failed: bool,
    has_completed: bool,
    has_killed_terminal: bool,
) -> bool {
    match f {
        RootFlag::Active => has_active,
        RootFlag::Failed => has_failed,
        RootFlag::Completed => has_completed,
        RootFlag::KilledTerminal => has_killed_terminal,
    }
}

/// Whether a condition holds of a root with these rolled-up flags.
pub open spec fn condition_holds(
    c: FlagCondition,
    has_active: bool,
    has_failed: bool,
    has_completed: bool,
    has_killed_terminal: bool,
) -> bool {
    match c {
        FlagCondition::Is(f, b) => flag_value(f, has_active, has_failed, has_completed, has_killed_terminal) == b,
        FlagCondition::Same(f, g) => flag_value(f, has_active, has_failed, has_completed, has_killed_terminal)
            == flag_value(g, has_active, has_failed, has_completed, has_killed_terminal),
        FlagCondition::Either(f, b, g, d) => flag_value(f, has_active, has_failed, has_completed, has_killed_terminal)
            == b || flag_value(g, has_active, has_failed, has_completed, has_killed_terminal) == d,
        FlagCondition::Never => false,
    }
}

/// Whether every condition of the list holds of a root with these flags.
pub open spec fn conditions_hold(
    cs: Seq<FlagCondition>,
    has_active: bool,
    has_failed: bool,
    has_completed: bool,
    has_killed_terminal: bool,
) -> bool
    decreases cs.len(),
{
    if cs.len() == 0 {
        true
    } else {
        conditions_hold(cs.drop_last(), has_active, has_failed, has_completed, has_killed_terminal)
            && condition_holds(cs.last(), has_active, has_failed, has_completed, has_killed_terminal)
    }
}

proof fn lemma_conditions_push(cs: Seq<FlagCondition>, c: FlagCondition)
    ensures
        conditions_sql(cs.push(c)) == conditions_sql(cs) + " AND "@ + condition_sql(c),
        forall|a: bool, f: bool, d: bool, k: bool| #[trigger] conditions_hold(cs.push(c), a, f, d, k)
            == (conditions_hold(cs, a, f, d, k) && condition_holds(c, a, f, d, k)),
{
    assert(cs.push(c).drop_last() =~= cs);
}

/// The SQL condition of the status filter means what the status says: for
/// every text `s` it is the conjunction, written out, of conditions on the
/// rolled-up flags that hold of a root exactly when its descendants roll up
/// to the status `s` (for a text that names no status, of none).
pub proof fn law_status_clause_selects_rollup(s: Seq<char>) -> (cs: Seq<FlagCondition>)
    ensures
        status_clause(s) == conditions_sql(cs),
        forall|a: bool, f: bool, d: bool, k: bool|
            #[trigger] conditions_hold(cs, a, f, d, k) <==> derived_status(a, f, d, k) == s,
{
    reveal_strlit("running");
    reveal_strlit("killed");
    reveal_strlit("partial_success");
    reveal_strlit("failed");
    reveal_strlit("completed");
    reveal_strlit("pending");
    reveal_strlit("COALESCE(rf.has_active, false)");
    reveal_strlit("COALESCE(rf.has_failed, false)");
    reveal_strlit("COALESCE(rf.has_completed, false)");
    reveal_strlit("COALESCE(rf.has_killed_terminal, false)");
    reveal_strlit(" = ");
    reveal_strlit(" OR ");
    reveal_strlit("(");
    reveal_strlit(")");
    reveal_strlit(" AND ");
    reveal_strlit("true");
    reveal_strlit("false");
    assert("killed"@.len() != "running"@.len());
    assert("partial_success"@.len() != "running"@.len());
    assert("partial_success"@.len() != "killed"@.len());
    assert("failed"@.len() != "running"@.len());
    assert("failed"@[0] != "killed"@[0]);
    assert("failed"@.len() != "partial_success"@.len());
    assert("completed"@.len() != "running"@.len());
    assert("completed"@.len() != "killed"@.len());
    assert("completed"@.len() != "partial_success"@.len());
    assert("completed"@.len() != "failed"@.len());
    assert("pending"@[0] != "running"@[0]);
    assert("pending"@.len() != "killed"@.len());
    assert("pending"@.len() != "partial_success"@.len());
    assert("pending"@.len() != "failed"@.len());
    assert("pending"@.len() != "completed"@.len());
    if s == "killed"@ {
        reveal_strlit(" AND COALESCE(rf.has_active, false) = false AND COALESCE(rf.has_failed, false) = true AND COALESCE(rf.has_completed, false) = false AND COALESCE(rf.has_killed_terminal, false) = COALESCE(rf.has_failed, false)");
        let c0 = FlagCondition::Is(RootFlag::Active, false);
        let c1 = FlagCondition::Is(RootFlag::Failed, true);
        let c2 = FlagCondition::Is(RootFlag::Completed, false);
        let c3 = FlagCondition::Same(RootFlag::KilledTerminal, RootFlag::Failed);
        lemma_conditions_push(Seq::<FlagCondition>::empty(), c0);
        lemma_conditions_push(Seq::<FlagCondition>::empty().push(c0), c1);
        lemma_conditions_push(Seq::<FlagCondition>::empty().push(c0).push(c1), c2);
        lemma_conditions_push(Seq::<FlagCondition>::empty().push(c0).push(c1).push(c2), c3);
        let cs = Seq::<FlagCondition>::empty().push(c0).push(c1).push(c2).push(c3);
        assert(status_clause(s) =~= conditions_sql(cs));
        cs
    } else if s == "failed"@ {
        reveal_strlit(" AND COALESCE(rf.has_active, false) = false AND COALESCE(rf.has_failed, false) = true AND COALESCE(rf.has_completed, false) = false AND (COALESCE(rf.has_killed_terminal, false) = false OR COALESCE(rf.has_completed, false) = true)");
        let c0 = FlagCondition::Is(RootFlag::Active, false);
        let c1 = FlagCondition::Is(RootFlag::Failed, true);
        let c2 = FlagCondition::Is(RootFlag::Completed, false);
        let c3 = FlagCondition::Either(RootFlag::KilledTerminal, false, RootFlag::Completed, true);
        lemma_conditions_push(Seq::<FlagCondition>::empty(), c0);
        lemma_conditions_push(Seq::<FlagCondition>::empty().push(c0), c1);
        lemma_conditions_push(Seq::<FlagCondition>::empty().push(c0).push(c1), c2);
        lemma_conditions_push(Seq::<FlagCondition>::empty().push(c0).push(c1).push(c2), c3);
        let cs = Seq::<FlagCondition>::empty().push(c0).push(c1).push(c2).push(c3);
        assert(status_clause(s) =~= conditions_sql(cs));
        cs
    } else if s == "partial_success"@ {
        reveal_strlit(" AND COALESCE(rf.has_active, false) = false AND COALESCE(rf.has_failed, false) = true AND COALESCE(rf.has_completed, false) = true");
        let c0 = FlagCondition::Is(RootFlag::Active, false);
        let c1 = FlagCondition::Is(RootFlag::Failed, true);
        let c2 = FlagCondition::Is(RootFlag::Completed, true);
        lemma_conditions_push(Seq::<FlagCondition>::empty(), c0);
        lemma_conditions_push(Seq::<FlagCondition>::empty().push(c0), c1);
        lemma_conditions_push(Seq::<FlagCondition>::empty().push(c0).push(c1), c2);
        let cs = Seq::<FlagCondition>::empty().push(c0).push(c1).push(c2);
        assert(status_clause(s) =~= conditions_sql(cs));
        cs
    } else if s == "running"@ {
        reveal_strlit(" AND COALESCE(rf.has_active, false) = true");
        let c0 = FlagCondition::Is(RootFlag::Active, true);
        lemma_conditions_push(Seq::<FlagCondition>::empty(), c0);
        let cs = Seq::<FlagCondition>::empty().push(c0);
        assert(status_clause(s) =~= conditions_sql(cs));
        cs
    } else if s == "completed"@ {
        reveal_strlit(" AND COALESCE(rf.has_active, false) = false AND COALESCE(rf.has_failed, false) = false AND COALESCE(rf.has_completed, false) = true");
        let c0 = FlagCondition::Is(RootFlag::Active, false);
        let c1 = FlagCondition::Is(RootFlag::Failed, false);
        let c2 = FlagCondition::Is(RootFlag::Completed, true);
        lemma_conditions_push(Seq::<FlagCondition>::empty(), c0);
        lemma_conditions_push(Seq::<FlagCondition>::empty().push(c0), c1);
        lemma_conditions_push(Seq::<FlagCondition>::empty().push(c0).push(c1), c2);
        let cs = Seq::<FlagCondition>::empty().push(c0).push(c1).push(c2);
        assert(status_clause(s) =~= conditions_sql(cs));
        cs
    } else if s == "pending"@ {
        reveal_strlit(" AND COALESCE(rf.has_active, false) = false AND COALESCE(rf.has_failed, false) = false AND COALESCE(rf.has_completed, false) = false");
        let c0 = FlagCondition::Is(RootFlag::Active, false);
        let c1 = FlagCondition::Is(RootFlag::Failed, false);
        let c2 = FlagCondition::Is(RootFlag::Completed, false);
        lemma_conditions_push(Seq::<FlagCondition>::empty(), c0);
        lemma_conditions_push(Seq::<FlagCondition>::empty().push(c0), c1);
        lemma_conditions_push(Seq::<FlagCondition>::empty().push(c0).push(c1), c2);
        let cs = Seq::<FlagCondition>::empty().push(c0).push(c1).push(c2);
        assert(status_clause(s) =~= conditions_sql(cs));
        cs
    } else {
        reveal_strlit(" AND false");
        lemma_conditions_push(Seq::<FlagCondition>::empty(), FlagCondition::Never);
        let cs = Seq::<FlagCondition>::empty().push(FlagCondition::Never);
        assert(status_clause(s) =~= conditions_sql(cs));
        cs
    }
}

/// The statuses as a comma-separated list of quoted SQL strings.
pub open spec fn quoted_list(statuses: Seq<TaskStatus>) -> Seq<char>
    decreases statuses.len(),
{
    if statuses.len() == 0 {
        Seq::empty()
    } else {
        let item = seq!['\''] + status_text(statuses.last()) + seq!['\''];
        if statuses.len() == 1 {
            item
        } else {
            quoted_list(statuses.drop_last()) + seq![','] + item
        }
    }
}

/// The statuses written as an SQL list of quoted strings, such as
/// `'done','failed'`, for the bulk deletion query.
pub fn quoted_status_list(statuses: &Vec<TaskStatus>) -> (r: String)
    ensures
        r@ == quoted_list(statuses@),
{
    let mut r = String::new();
    let mut i: usize = 0;
    while i < statuses.len()
        invariant
            i <= statuses.len(),
            r@ == quoted_list(statuses@.take(i as int)),
        decreases statuses.len() - i,
    {
        let ghost before = r@;
        assert(statuses@.take(i + 1).drop_last() =~= statuses@.take(i as int));
        if i > 0 {
            push_str(&mut r, ",");
            proof {
                reveal_strlit(",");
            }
        }
        push_str(&mut r, "'");
        push_str(&mut r, statuses[i].as_str());
        push_str(&mut r, "'");
        proof {
            reveal_strlit("'");
            let item = seq!['\''] + status_text(statuses@[i as int]) + seq!['\''];
            if i > 0 {
                assert(r@ =~= before + seq![','] + item);
            } else {
                assert(r@ =~= item);
            }
        }
        i += 1;
    }
    assert(statuses@.take(statuses.len() as int) =~= statuses@);
    r
}

} // verus!
