use vstd::prelude::*;

use crate::commands::CommandModel;
use crate::config::{Config, Defaults, Pane, Window, layout_is_vertical, window_panes};
use crate::hooks::hook_commands;
use crate::session::{
    SessionPlan, checkout_commands, creation_command, directory_commands, effective_window_name,
    layout_commands, pane_commands, panes_commands, window_commands, window_models,
    window_pane_commands,
};

verus! {

/// The commands of `s` that satisfy `p`, in order.
pub open spec fn keep(s: Seq<CommandModel>, p: spec_fn(CommandModel) -> bool) -> Seq<CommandModel>
    decreases s.len(),
{
    if s.len() == 0 {
        Seq::empty()
    } else {
        keep(s.drop_last(), p) + if p(s.last()) {
            seq![s.last()]
        } else {
            Seq::empty()
        }
    }
}

/// Commands that bring a window into being.
pub open spec fn is_creation() -> spec_fn(CommandModel) -> bool {
    |c: CommandModel| c is RenameWindow || c is NewWindow
}

/// Commands that split a window.
pub open spec fn is_split() -> spec_fn(CommandModel) -> bool {
    |c: CommandModel| c is SplitWindow
}

/// Commands that type a pane's initial command.
pub open spec fn is_injection() -> spec_fn(CommandModel) -> bool {
    |c: CommandModel| c is SendKeys
}

/// Keeping commands distributes over concatenation.
pub proof fn lemma_keep_add(a: Seq<CommandModel>, b: Seq<CommandModel>, p: spec_fn(CommandModel) -> bool)
    ensures
        keep(a + b, p) == keep(a, p) + keep(b, p),
    decreases b.len(),
{
    if b.len() == 0 {
        assert(a + b =~= a);
        assert(keep(a, p) + keep(b, p) =~= keep(a, p));
    } else {
        assert((a + b).drop_last() =~= a + b.drop_last());
        lemma_keep_add(a, b.drop_last(), p);
        assert(keep(a + b, p) =~= keep(a, p) + keep(b, p));
    }
}

proof fn lemma_keep_single(c: CommandModel, p: spec_fn(CommandModel) -> bool)
    ensures
        keep(seq![c], p) == (if p(c) {
            seq![c]
        } else {
            Seq::<CommandModel>::empty()
        }),
{
    assert(seq![c].drop_last() =~= Seq::<CommandModel>::empty());
    assert(keep(Seq::<CommandModel>::empty(), p) == Seq::<CommandModel>::empty());
    assert(seq![c].last() == c);
    assert(keep(seq![c], p) =~= (if p(c) {
        seq![c]
    } else {
        Seq::<CommandModel>::empty()
    }));
}

proof fn lemma_keep_empty(p: spec_fn(CommandModel) -> bool)
    ensures
        keep(Seq::empty(), p) == Seq::<CommandModel>::empty(),
{
}

proof fn lemma_keep_pane(
    sess: Seq<char>,
    win: nat,
    panes: Seq<Pane>,
    vertical: bool,
    dir: Seq<char>,
    j: int,
)
    requires
        0 <= j < panes.len(),
    ensures
        keep(pane_commands(sess, win, panes, vertical, dir, j), is_creation()) == Seq::<
            CommandModel,
        >::empty(),
        keep(pane_commands(sess, win, panes, vertical, dir, j), is_split()) == (if j > 0 {
            seq![CommandModel::SplitWindow { session: sess, window: win, vertical: vertical }]
        } else {
            Seq::<CommandModel>::empty()
        }),
        keep(pane_commands(sess, win, panes, vertical, dir, j), is_injection()) == seq![
            CommandModel::SendKeys {
                session: sess,
                window: win,
                pane: (j + 1) as nat,
                keys: panes[j].initial_command@,
            },
        ],
{
    let split: Seq<CommandModel> = if j > 0 {
        seq![CommandModel::SplitWindow { session: sess, window: win, vertical: vertical }]
    } else {
        Seq::empty()
    };
    let cd: Seq<CommandModel> = match panes[j].directory {
        Some(d) => seq![
            CommandModel::ChangeDirectory {
                session: sess,
                window: win,
                pane: (j + 1) as nat,
                directory: crate::paths::path_join(dir, d@),
            },
        ],
        None => Seq::empty(),
    };
    let keys = CommandModel::SendKeys {
        session: sess,
        window: win,
        pane: (j + 1) as nat,
        keys: panes[j].initial_command@,
    };
    assert(pane_commands(sess, win, panes, vertical, dir, j) == split + cd + seq![keys]);
    let ps = seq![is_creation(), is_split(), is_injection()];
    assert forall|k: int| 0 <= k < 3 implies keep(split + cd + seq![keys], #[trigger] ps[k]) == keep(
        split,
        ps[k],
    ) + keep(cd, ps[k]) + keep(seq![keys], ps[k]) by {
        lemma_keep_add(split + cd, seq![keys], ps[k]);
        lemma_keep_add(split, cd, ps[k]);
    }
    assert(ps[0] == is_creation());
    assert(ps[1] == is_split());
    assert(ps[2] == is_injection());
    lemma_keep_empty(is_creation());
    lemma_keep_empty(is_split());
    lemma_keep_empty(is_injection());
    if j > 0 {
        lemma_keep_single(split[0], is_creation());
        lemma_keep_single(split[0], is_split());
        lemma_keep_single(split[0], is_injection());
    }
    if cd.len() > 0 {
        assert(cd == seq![cd[0]]);
        lemma_keep_single(cd[0], is_creation());
        lemma_keep_single(cd[0], is_split());
        lemma_keep_single(cd[0], is_injection());
    }
    lemma_keep_single(keys, is_creation());
    lemma_keep_single(keys, is_split());
    lemma_keep_single(keys, is_injection());
    assert(keep(split + cd + seq![keys], is_creation()) =~= Seq::<CommandModel>::empty());
    assert(keep(split + cd + seq![keys], is_injection()) =~= seq![keys]);
    assert(keep(split + cd + seq![keys], is_split()) =~= split);
}

proof fn lemma_keep_panes(
    sess: Seq<char>,
    win: nat,
    panes: Seq<Pane>,
    vertical: bool,
    dir: Seq<char>,
    n: nat,
)
    requires
        n <= panes.len(),
    ensures
        keep(panes_commands(sess, win, panes, vertical, dir, n), is_creation()) == Seq::<
            CommandModel,
        >::empty(),
        keep(panes_commands(sess, win, panes, vertical, dir, n), is_split()) == Seq::new(
            if n == 0 {
                0
            } else {
                (n - 1) as nat
            },
            |k: int| CommandModel::SplitWindow { session: sess, window: win, vertical: vertical },
        ),
        keep(panes_commands(sess, win, panes, vertical, dir, n), is_injection()) == Seq::new(
            n,
            |k: int|
                CommandModel::SendKeys {
                    session: sess,
                    window: win,
                    pane: (k + 1) as nat,
                    keys: panes[k].initial_command@,
                },
        ),
    decreases n,
{
    if n > 0 {
        let prev = panes_commands(sess, win, panes, vertical, dir, (n - 1) as nat);
        let last = pane_commands(sess, win, panes, vertical, dir, n - 1);
        lemma_keep_panes(sess, win, panes, vertical, dir, (n - 1) as nat);
        lemma_keep_pane(sess, win, panes, vertical, dir, n - 1);
        lemma_keep_add(prev, last, is_creation());
        lemma_keep_add(prev, last, is_split());
        lemma_keep_add(prev, last, is_injection());
        assert(keep(prev + last, is_creation()) =~= Seq::<CommandModel>::empty());
        assert(keep(prev + last, is_split()) =~= Seq::new(
            (n - 1) as nat,
            |k: int| CommandModel::SplitWindow { session: sess, window: win, vertical: vertical },
        ));
        assert(keep(prev + last, is_injection()) =~= Seq::new(
            n,
            |k: int|
                CommandModel::SendKeys {
                    session: sess,
                    window: win,
                    pane: (k + 1) as nat,
                    keys: panes[k].initial_command@,
                },
        ));
    } else {
        lemma_keep_empty(is_creation());
        lemma_keep_empty(is_split());
        lemma_keep_empty(is_injection());
        assert(keep(Seq::empty(), is_split()) =~= Seq::new(
            0,
            |k: int| CommandModel::SplitWindow { session: sess, window: win, vertical: vertical },
        ));
        assert(keep(Seq::empty(), is_injection()) =~= Seq::new(
            0,
            |k: int|
                CommandModel::SendKeys {
                    session: sess,
                    window: win,
                    pane: (k + 1) as nat,
                    keys: panes[k].initial_command@,
                },
        ));
    }
}

proof fn lemma_keep_none(s: Seq<CommandModel>, p: spec_fn(CommandModel) -> bool)
    requires
        forall|i: int| 0 <= i < s.len() ==> !p(#[trigger] s[i]),
    ensures
        keep(s, p) == Seq::<CommandModel>::empty(),
    decreases s.len(),
{
    if s.len() > 0 {
        lemma_keep_none(s.drop_last(), p);
        assert(!p(s[s.len() - 1]));
        assert(keep(s, p) =~= Seq::<CommandModel>::empty());
    }
}

/// A window whose pane list has `k > 0` entries is split `k - 1` times, and
/// the initial commands of its `k` panes are typed into panes `1..=k`, in
/// pane order.
pub proof fn lemma_pane_splits_and_injections(sess: Seq<char>, win: nat, w: Window, dir: Seq<char>)
    requires
        window_panes(w).len() > 0,
    ensures
        keep(window_pane_commands(sess, win, w, dir), is_split()).len() == window_panes(w).len()
            - 1,
        keep(window_pane_commands(sess, win, w, dir), is_injection()) == Seq::new(
            window_panes(w).len(),
            |k: int|
                CommandModel::SendKeys {
                    session: sess,
                    window: win,
                    pane: (k + 1) as nat,
                    keys: window_panes(w)[k].initial_command@,
                },
        ),
{
    lemma_window_pane_keeps(sess, win, w, dir);
}

proof fn lemma_window_pane_keeps(sess: Seq<char>, win: nat, w: Window, dir: Seq<char>)
    ensures
        keep(window_pane_commands(sess, win, w, dir), is_creation()) == Seq::<
            CommandModel,
        >::empty(),
        keep(window_pane_commands(sess, win, w, dir), is_split()) == Seq::new(
            if window_panes(w).len() == 0 {
                0
            } else {
                (window_panes(w).len() - 1) as nat
            },
            |k: int|
                CommandModel::SplitWindow {
                    session: sess,
                    window: win,
                    vertical: layout_is_vertical(w.layout),
                },
        ),
        keep(window_pane_commands(sess, win, w, dir), is_injection()) == Seq::new(
            window_panes(w).len(),
            |k: int|
                CommandModel::SendKeys {
                    session: sess,
                    window: win,
                    pane: (k + 1) as nat,
                    keys: window_panes(w)[k].initial_command@,
                },
        ),
{
    let panes = window_panes(w);
    let v = layout_is_vertical(w.layout);
    let body = panes_commands(sess, win, panes, v, dir, panes.len());
    let tail = layout_commands(sess, win, w.layout);
    lemma_keep_panes(sess, win, panes, v, dir, panes.len());
    lemma_keep_add(body, tail, is_creation());
    lemma_keep_add(body, tail, is_split());
    lemma_keep_add(body, tail, is_injection());
    lemma_keep_none(tail, is_creation());
    lemma_keep_none(tail, is_split());
    lemma_keep_none(tail, is_injection());
    assert(keep(body, is_creation()) + keep(tail, is_creation()) =~= keep(body, is_creation()));
    assert(keep(body, is_split()) + keep(tail, is_split()) =~= keep(body, is_split()));
    assert(keep(body, is_injection()) + keep(tail, is_injection()) =~= keep(body, is_injection()));
}

/// Every split of a window's panes is vertical when the window's layout is a
/// vertical one, and horizontal otherwise.
pub proof fn lemma_split_orientation(sess: Seq<char>, win: nat, w: Window, dir: Seq<char>)
    ensures
        forall|i: int|
            0 <= i < keep(window_pane_commands(sess, win, w, dir), is_split()).len() ==> (
            #[trigger] keep(window_pane_commands(sess, win, w, dir), is_split())[i])
                == (CommandModel::SplitWindow {
                session: sess,
                window: win,
                vertical: layout_is_vertical(w.layout),
            }),
{
    lemma_window_pane_keeps(sess, win, w, dir);
}

/// The window number that a creation command addresses.
pub open spec fn created_window(c: CommandModel) -> nat {
    match c {
        CommandModel::RenameWindow { window, .. } => window,
        CommandModel::NewWindow { window, .. } => window,
        _ => 0,
    }
}

/// Window `i` (counted from 0) is brought into being by exactly one command,
/// which addresses window `i + 1`.
pub proof fn lemma_window_created_once(sess: Seq<char>, i: nat, w: Window, d: Option<Defaults>)
    ensures
        keep(window_commands(sess, i, w, d), is_creation()) == seq![
            creation_command(sess, i, effective_window_name(w.name@, i)),
        ],
        created_window(creation_command(sess, i, effective_window_name(w.name@, i))) == i + 1,
{
    let p = is_creation();
    let pre = hook_commands(w.pre_command);
    let c = seq![creation_command(sess, i, effective_window_name(w.name@, i))];
    let dirs = directory_commands(sess, i, w, d);
    let checkout = checkout_commands(sess, i, w);
    let panes = window_pane_commands(sess, i + 1, w, crate::session::pane_parent(w, d));
    let post = hook_commands(w.post_command);
    assert(window_commands(sess, i, w, d) == pre + c + dirs + checkout + panes + post);
    lemma_keep_add(pre + c + dirs + checkout + panes, post, p);
    lemma_keep_add(pre + c + dirs + checkout, panes, p);
    lemma_keep_add(pre + c + dirs, checkout, p);
    lemma_keep_add(pre + c, dirs, p);
    lemma_keep_add(pre, c, p);
    lemma_keep_none(pre, p);
    lemma_keep_none(dirs, p);
    lemma_keep_none(checkout, p);
    lemma_keep_none(post, p);
    lemma_window_pane_keeps(sess, i + 1, w, crate::session::pane_parent(w, d));
    lemma_keep_single(c[0], p);
    assert(c == seq![c[0]]);
    assert(keep(window_commands(sess, i, w, d), p) =~= c);
}

/// A plan for `n` windows creates each window exactly once, window `i`
/// (counted from 0) under number `i + 1`, so in source order.
pub proof fn lemma_windows_created_in_order(plan: SessionPlan, sess: Seq<char>, config: Config)
    requires
        plan.describes(sess, config),
    ensures
        window_models(plan.windows@).len() == config.windows@.len(),
        forall|i: int|
            0 <= i < config.windows@.len() ==> #[trigger] keep(
                window_models(plan.windows@)[i],
                is_creation(),
            ).len() == 1 && created_window(keep(window_models(plan.windows@)[i], is_creation())[0])
                == i + 1,
{
    assert forall|i: int| 0 <= i < config.windows@.len() implies #[trigger] keep(
        window_models(plan.windows@)[i],
        is_creation(),
    ).len() == 1 && created_window(keep(window_models(plan.windows@)[i], is_creation())[0]) == i
        + 1 by {
        lemma_window_created_once(sess, i as nat, config.windows@[i], config.defaults);
    }
}

} // verus!
