//! The calls inside the body of a method override. Where a method call
//! passes an unused register, every call of the original gets a null pointer
//! for it, however deep the call stands inside other expressions.

use vstd::prelude::*;

verus! {

/// An expression, as far as calls stand in it.
#[derive(Debug, PartialEq, Eq)]
pub enum Expr {
    /// A call: what is called, as written, and the arguments in order.
    Call { func: String, args: Vec<Expr> },
    /// A null pointer.
    Null,
    /// Any other expression, as written, with the calls that stand in it:
    /// those that stand in no other call, in the order in which they are
    /// written.
    Other { text: String, calls: Vec<Expr> },
}

pub enum ExprView {
    Call { func: Seq<char>, args: Seq<ExprView> },
    Null,
    Other { text: Seq<char>, calls: Seq<ExprView> },
}

/// What an expression holds.
pub open spec fn expr_view(e: Expr) -> ExprView
    decreases e,
{
    match e {
        Expr::Call { func, args } => ExprView::Call {
            func: func@,
            args: Seq::new(
                args@.len(),
                |i: int|
                    if 0 <= i < args@.len() {
                        expr_view(args@[i])
                    } else {
                        ExprView::Null
                    },
            ),
        },
        Expr::Null => ExprView::Null,
        Expr::Other { text, calls } => ExprView::Other {
            text: text@,
            calls: Seq::new(
                calls@.len(),
                |i: int|
                    if 0 <= i < calls@.len() {
                        expr_view(calls@[i])
                    } else {
                        ExprView::Null
                    },
            ),
        },
    }
}

/// What the expressions of a list hold, one by one.
pub open spec fn views_of(list: Seq<Expr>) -> Seq<ExprView> {
    Seq::new(list.len(), |i: int| expr_view(list[i]))
}

impl DeepView for Expr {
    type V = ExprView;

    open spec fn deep_view(&self) -> ExprView {
        expr_view(*self)
    }
}

/// Whether every call of `original` in `e`, at whatever depth, has the
/// object as its first argument.
pub open spec fn passes_object(original: Seq<char>, e: ExprView) -> bool
    decreases e,
{
    match e {
        ExprView::Call { func, args } => {
            &&& func == original ==> args.len() >= 1
            &&& forall|i: int| 0 <= i < args.len() ==> passes_object(original, #[trigger] args[i])
        },
        ExprView::Null => true,
        ExprView::Other { text, calls } => forall|i: int|
            0 <= i < calls.len() ==> passes_object(original, #[trigger] calls[i]),
    }
}

/// Whether every expression of a list passes the object to `original`.
pub open spec fn all_pass_object(original: Seq<char>, list: Seq<ExprView>) -> bool {
    forall|i: int| 0 <= i < list.len() ==> passes_object(original, #[trigger] list[i])
}

/// An expression as it stands after expansion. A call of `original` passes a
/// null pointer for the unused register, right after the object; what it was
/// written with follows, expanded in turn. Nothing else changes.
pub open spec fn expanded(original: Seq<char>, e: ExprView) -> ExprView
    decreases e,
{
    match e {
        ExprView::Call { func, args } => {
            let inner = Seq::new(
                args.len(),
                |i: int|
                    if 0 <= i < args.len() {
                        expanded(original, args[i])
                    } else {
                        ExprView::Null
                    },
            );
            if func == original {
                ExprView::Call { func, args: inner.insert(1, ExprView::Null) }
            } else {
                ExprView::Call { func, args: inner }
            }
        },
        ExprView::Null => ExprView::Null,
        ExprView::Other { text, calls } => ExprView::Other {
            text,
            calls: Seq::new(
                calls.len(),
                |i: int|
                    if 0 <= i < calls.len() {
                        expanded(original, calls[i])
                    } else {
                        ExprView::Null
                    },
            ),
        },
    }
}

/// The expressions of a list after expansion, one by one.
pub open spec fn expanded_all(original: Seq<char>, list: Seq<ExprView>) -> Seq<ExprView> {
    Seq::new(list.len(), |i: int| expanded(original, list[i]))
}

/// Whether every call of `original` in `e`, at whatever depth, passes a null
/// pointer as its second argument.
pub open spec fn passes_null(original: Seq<char>, e: ExprView) -> bool
    decreases e,
{
    match e {
        ExprView::Call { func, args } => {
            &&& func == original ==> args.len() >= 2 && args[1] == ExprView::Null
            &&& forall|i: int| 0 <= i < args.len() ==> passes_null(original, #[trigger] args[i])
        },
        ExprView::Null => true,
        ExprView::Other { text, calls } => forall|i: int|
            0 <= i < calls.len() ==> passes_null(original, #[trigger] calls[i]),
    }
}

/// After expansion every call of the original, nested or not, passes a null
/// pointer right after the object, and has one argument more than it was
/// written with.
pub proof fn lemma_every_call_passes_null(original: Seq<char>, e: ExprView)
    requires
        passes_object(original, e),
    ensures
        passes_null(original, expanded(original, e)),
        e matches ExprView::Call { func, args } ==> expanded(original, e) matches ExprView::Call {
            func: called,
            args: passed,
        } && called == func && passed.len() == args.len() + if func == original {
            1int
        } else {
            0int
        },
    decreases e,
{
    match e {
        ExprView::Call { func, args } => {
            let inner = Seq::new(
                args.len(),
                |i: int|
                    if 0 <= i < args.len() {
                        expanded(original, args[i])
                    } else {
                        ExprView::Null
                    },
            );
            assert forall|i: int| 0 <= i < inner.len() implies passes_null(
                original,
                #[trigger] inner[i],
            ) by {
                lemma_every_call_passes_null(original, args[i]);
            }
            if func == original {
                let passed = inner.insert(1, ExprView::Null);
                assert(expanded(original, e)->Call_args == passed);
                assert(passed.len() >= 2 && passed[1] == ExprView::Null);
                assert forall|i: int| 0 <= i < passed.len() implies passes_null(
                    original,
                    #[trigger] passed[i],
                ) by {
                    if i == 0 {
                        assert(passed[i] == inner[0]);
                    } else if i > 1 {
                        assert(passed[i] == inner[i - 1]);
                    }
                }
            } else {
                assert(expanded(original, e)->Call_args == inner);
            }
        },
        ExprView::Null => {},
        ExprView::Other { text, calls } => {
            let inner = Seq::new(
                calls.len(),
                |i: int|
                    if 0 <= i < calls.len() {
                        expanded(original, calls[i])
                    } else {
                        ExprView::Null
                    },
            );
            assert(expanded(original, e)->Other_calls == inner);
            assert forall|i: int| 0 <= i < inner.len() implies passes_null(
                original,
                #[trigger] inner[i],
            ) by {
                lemma_every_call_passes_null(original, calls[i]);
            }
        },
    }
}

/// Tells whether every call of `original` in `e` has the object as its first
/// argument.
pub fn passes(original: &String, e: &Expr) -> (ok: bool)
    ensures
        ok == passes_object(original@, expr_view(*e)),
    decreases e,
{
    match e {
        Expr::Call { func, args } => {
            assert(expr_view(*e)->Call_args =~= views_of(args@));
            if *func == *original && args.len() < 1 {
                return false;
            }
            all_pass(original, args)
        },
        Expr::Null => true,
        Expr::Other { text, calls } => {
            assert(expr_view(*e)->Other_calls =~= views_of(calls@));
            all_pass(original, calls)
        },
    }
}

/// Tells whether every expression of `list` passes the object to `original`.
pub fn all_pass(original: &String, list: &Vec<Expr>) -> (ok: bool)
    ensures
        ok == all_pass_object(original@, views_of(list@)),
    decreases list,
{
    let mut i: usize = 0;
    while i < list.len()
        invariant
            i <= list.len(),
            forall|k: int| 0 <= k < i ==> passes_object(original@, #[trigger] views_of(list@)[k]),
        decreases list.len() - i,
    {
        proof {
            vstd::std_specs::vec::axiom_vec_index_decreases(*list, i as int);
        }
        if !passes(original, &list[i]) {
            assert(!passes_object(original@, views_of(list@)[i as int]));
            return false;
        }
        i += 1;
    }
    true
}

/// Expands one expression.
pub fn expand_expr(original: &String, e: Expr) -> (r: Expr)
    requires
        passes_object(original@, expr_view(e)),
    ensures
        expr_view(r) == expanded(original@, expr_view(e)),
    decreases e,
{
    match e {
        Expr::Call { func, args } => {
            let ghost written = views_of(args@);
            assert(written =~= expr_view(e)->Call_args);
            let call_original = func == *original;
            let mut passed = expand_calls(original, args);
            let ghost inner = views_of(passed@);
            assert(passed@.len() == inner.len() == written.len() == args@.len());
            if call_original {
                passed.insert(1, Expr::Null);
                assert(views_of(passed@) =~= inner.insert(1, ExprView::Null));
            }
            let r = Expr::Call { func, args: passed };
            assert(expr_view(r)->Call_args =~= views_of(passed@));
            assert(expanded(original@, expr_view(e))->Call_args =~= views_of(passed@));
            r
        },
        Expr::Null => Expr::Null,
        Expr::Other { text, calls } => {
            assert(views_of(calls@) =~= expr_view(e)->Other_calls);
            let inner = expand_calls(original, calls);
            let r = Expr::Other { text, calls: inner };
            assert(expr_view(r)->Other_calls =~= views_of(inner@));
            assert(expanded(original@, expr_view(e))->Other_calls =~= views_of(inner@));
            r
        },
    }
}

/// Expands the expressions of a function body: every call of `original` in
/// them, nested or not, is handed a null pointer for the unused register.
pub fn expand_calls(original: &String, body: Vec<Expr>) -> (r: Vec<Expr>)
    requires
        all_pass_object(original@, views_of(body@)),
    ensures
        views_of(r@) == expanded_all(original@, views_of(body@)),
    decreases body,
{
    let ghost all = body@;
    let ghost whole = body;
    let mut rest = body;
    let mut turned: Vec<Expr> = Vec::new();
    while rest.len() > 0
        invariant
            whole == body,
            whole@ == all,
            all_pass_object(original@, views_of(all)),
            rest@.len() <= all.len(),
            rest@ == all.take(rest@.len() as int),
            turned@.len() == all.len() - rest@.len(),
            forall|k: int|
                0 <= k < turned@.len() ==> expr_view(#[trigger] turned@[k]) == expanded(
                    original@,
                    expr_view(all[all.len() - 1 - k]),
                ),
        decreases rest@.len(),
    {
        let ghost n = rest@.len();
        let e = rest.pop().unwrap();
        proof {
            assert(e == all[n - 1]);
            vstd::std_specs::vec::axiom_vec_index_decreases(whole, n - 1);
            assert(passes_object(original@, views_of(all)[n - 1]));
            assert(rest@ =~= all.take(n - 1));
        }
        turned.push(expand_expr(original, e));
    }
    let ghost back = turned@;
    let mut r: Vec<Expr> = Vec::new();
    while turned.len() > 0
        invariant
            back.len() == all.len(),
            turned@.len() <= back.len(),
            turned@ == back.take(turned@.len() as int),
            r@.len() == back.len() - turned@.len(),
            forall|k: int| 0 <= k < r@.len() ==> #[trigger] r@[k] == back[back.len() - 1 - k],
        decreases turned@.len(),
    {
        let ghost n = turned@.len();
        let e = turned.pop().unwrap();
        proof {
            assert(e == back[n - 1]);
            assert(turned@ =~= back.take(n - 1));
        }
        r.push(e);
    }
    assert(views_of(r@) =~= expanded_all(original@, views_of(all)));
    r
}

/// Rewrites the calls of the original inside a method override.
#[derive(Debug, Clone, PartialEq, Eq)]
pub struct ExpandMethodCalls {
    original: String,
}

impl ExpandMethodCalls {
    /// The name of the cell whose calls are rewritten.
    pub closed spec fn target(&self) -> Seq<char> {
        self.original@
    }

    /// A rewriter for the calls of `original`.
    pub fn new(original: &String) -> (e: Self)
        ensures
            e.target() == original@,
    {
        ExpandMethodCalls { original: original.clone() }
    }

    /// Whether `fold_expr_call` takes `call`: every call of the original in
    /// it has the object as first argument.
    pub fn accepts(&self, call: &Expr) -> (ok: bool)
        ensures
            ok == passes_object(self.target(), expr_view(*call)),
    {
        passes(&self.original, call)
    }

    /// Rewrites a call, and every call inside it.
    pub fn fold_expr_call(&self, call: Expr) -> (r: Expr)
        requires
            passes_object(self.target(), expr_view(call)),
        ensures
            expr_view(r) == expanded(self.target(), expr_view(call)),
    {
        expand_expr(&self.original, call)
    }
}

} // verus!
