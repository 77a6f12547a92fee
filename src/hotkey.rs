//! The registry of the one global shortcut: what a rebind asks of the
//! operating system, and which binding it leaves stored.

use vstd::prelude::*;
use vstd::string::*;

verus! {

/// A call the host makes on the operating system's shortcut manager.
#[derive(Debug, PartialEq, Eq)]
pub enum ShortcutCall {
    Unregister(String),
    Register(String),
}

/// A shortcut call, with the binding as a character sequence.
pub ghost enum CallView {
    Unregister(Seq<char>),
    Register(Seq<char>),
}

impl ShortcutCall {
    pub open spec fn view(&self) -> CallView {
        match self {
            ShortcutCall::Unregister(k) => CallView::Unregister(k@),
            ShortcutCall::Register(k) => CallView::Register(k@),
        }
    }
}

/// The views of a sequence of calls.
pub open spec fn call_views(calls: Seq<ShortcutCall>) -> Seq<CallView> {
    calls.map_values(|c: ShortcutCall| c@)
}

/// The calls of a rebind from `current` to `new`, in order: the stored
/// binding is unregistered first, unless none is stored (the empty binding),
/// then `new` is registered, once.
pub open spec fn planned_calls(current: Seq<char>, new: Seq<char>) -> Seq<CallView> {
    if current.len() > 0 {
        seq![CallView::Unregister(current), CallView::Register(new)]
    } else {
        seq![CallView::Register(new)]
    }
}

/// The stored binding after a rebind to `new`: `new` where its registration
/// succeeded, the binding stored before where it failed.
pub open spec fn rebound(current: Seq<char>, new: Seq<char>, registered: bool) -> Seq<char> {
    if registered {
        new
    } else {
        current
    }
}

/// The bindings registered with the operating system after one call
/// (`ok`: the system accepted it).
pub open spec fn apply_call(os: Set<Seq<char>>, call: CallView, ok: bool) -> Set<Seq<char>> {
    if !ok {
        os
    } else {
        match call {
            CallView::Unregister(k) => os.remove(k),
            CallView::Register(k) => os.insert(k),
        }
    }
}

/// The bindings registered after a sequence of calls; `oks[i]` says whether
/// the system accepted call `i`.
pub open spec fn apply_calls(os: Set<Seq<char>>, calls: Seq<CallView>, oks: Seq<bool>) -> Set<Seq<char>>
    decreases calls.len(),
{
    if calls.len() == 0 {
        os
    } else {
        apply_call(apply_calls(os, calls.drop_last(), oks), calls.last(), oks[calls.len() - 1])
    }
}

/// The registered bindings are at most the stored one, and none where the
/// stored binding is empty.
pub open spec fn registered_at_most(os: Set<Seq<char>>, current: Seq<char>) -> bool {
    forall|k: Seq<char>| os.contains(k) ==> k == current && current.len() > 0
}

/// The outcomes of a rebind's calls that the laws below assume: one per
/// call, an unregistration is accepted, and an empty binding is not
/// registered.
pub open spec fn plausible_outcomes(calls: Seq<CallView>, oks: Seq<bool>) -> bool {
    &&& oks.len() == calls.len()
    &&& forall|i: int| 0 <= i < calls.len() ==> match #[trigger] calls[i] {
        CallView::Unregister(_) => oks[i],
        CallView::Register(k) => k.len() == 0 ==> !oks[i],
    }
}

/// The owner of the current global shortcut. The empty binding means that
/// none is registered.
pub struct HotkeyRegistry {
    current: String,
}

impl HotkeyRegistry {
    /// The binding stored.
    pub closed spec fn binding(&self) -> Seq<char> {
        self.current@
    }

    /// A registry that holds `initial`, the binding registered at startup.
    pub fn new(initial: String) -> (r: HotkeyRegistry)
        ensures
            r.binding() == initial@,
    {
        HotkeyRegistry { current: initial }
    }

    /// A copy of the binding stored.
    pub fn get_current_hotkey(&self) -> (r: String)
        ensures
            r@ == self.binding(),
    {
        self.current.clone()
    }

    /// The calls a rebind to `new` makes on the operating system, in order.
    pub fn rebind_plan(&self, new: &str) -> (r: Vec<ShortcutCall>)
        ensures
            call_views(r@) == planned_calls(self.binding(), new@),
    {
        let mut calls: Vec<ShortcutCall> = Vec::new();
        if self.current.as_str().unicode_len() > 0 {
            calls.push(ShortcutCall::Unregister(self.current.clone()));
        }
        calls.push(ShortcutCall::Register(String::from_str(new)));
        assert(call_views(calls@) =~= planned_calls(self.binding(), new@));
        calls
    }

    /// Ends a rebind to `new` with the outcome of its registration. On
    /// success `new` is stored and confirmed; on failure the stored binding
    /// stays as it was and the system's reason is reported as a conflict.
    pub fn finish_rebind(&mut self, new: String, outcome: Result<(), String>) -> (r: Result<String, String>)
        ensures
            final(self).binding() == rebound(old(self).binding(), new@, outcome is Ok),
            outcome is Ok ==> (r matches Ok(m) && m@ == REGISTERED@ + new@),
            outcome matches Err(e) ==> (r matches Err(m) && m@ == CONFLICT_HEAD@ + e@ + CONFLICT_TAIL@),
    {
        match outcome {
            Ok(()) => {
                let mut m = String::from_str(REGISTERED);
                m.append(new.as_str());
                self.current = new;
                Ok(m)
            },
            Err(e) => {
                let mut m = String::from_str(CONFLICT_HEAD);
                m.append(e.as_str());
                m.append(CONFLICT_TAIL);
                Err(m)
            },
        }
    }
}

/// The confirmation of a rebind, before the new binding.
pub const REGISTERED: &'static str = "ホットキーを登録しました: ";

/// The report of a refused registration, before the system's reason.
pub const CONFLICT_HEAD: &'static str = "ホットキーの登録に失敗しました: ";

/// The report of a refused registration, after the system's reason.
pub const CONFLICT_TAIL: &'static str = "。このキーは他のアプリケーションで使用されている可能性があります。";

/// One rebind keeps at most one binding registered before and after each
/// of its calls, and after the last it is the stored one, where the system
/// accepts the unregistration and refuses an empty binding.
pub proof fn lemma_rebind_keeps_one_binding(os: Set<Seq<char>>, current: Seq<char>, new: Seq<char>, oks: Seq<bool>)
    requires
        registered_at_most(os, current),
        plausible_outcomes(planned_calls(current, new), oks),
    ensures
        forall|k: int| 0 <= k <= planned_calls(current, new).len()
            ==> (#[trigger] apply_calls(os, planned_calls(current, new).take(k), oks)).len() <= 1,
        registered_at_most(
            apply_calls(os, planned_calls(current, new), oks),
            rebound(current, new, oks.last()),
        ),
{
    let calls = planned_calls(current, new);
    let n = calls.len() as int;
    assert(os.subset_of(set![current]));
    vstd::set_lib::lemma_len_subset(os, set![current]);
    assert(calls.take(0) =~= Seq::<CallView>::empty());
    let reg = calls.len() - 1;
    assert(calls[reg as int] == CallView::Register(new));
    if current.len() > 0 {
        assert(calls[0] == CallView::Unregister(current));
        assert(calls.take(1).drop_last() =~= calls.take(0));
        assert(calls.take(1).last() == calls[0]);
        assert(apply_calls(os, calls.take(0), oks) == os);
        assert(oks[0]);
        assert(calls.take(1).len() == 1);
        let mid = apply_calls(os, calls.take(1), oks);
        assert(mid == os.remove(current));
        assert(mid =~= Set::<Seq<char>>::empty());
        assert(calls.take(2) =~= calls);
        assert(calls.take(2).drop_last() =~= calls.take(1));
    } else {
        assert(os =~= Set::<Seq<char>>::empty());
        assert(calls.take(1) =~= calls);
        assert(calls.drop_last() =~= calls.take(0));
    }
    let end = apply_calls(os, calls, oks);
    let pre = apply_calls(os, calls.drop_last(), oks);
    assert(pre =~= Set::<Seq<char>>::empty());
    if oks[reg as int] {
        assert(end =~= set![new]);
    } else {
        assert(end =~= Set::<Seq<char>>::empty());
    }
    assert forall|k: int| 0 <= k <= n implies (#[trigger] apply_calls(os, calls.take(k), oks)).len() <= 1 by {
        if k == n {
            assert(calls.take(k) =~= calls);
            if oks[reg as int] {
                assert(set![new].len() == 1);
            }
        }
    }
}

/// Two rebinds in succession keep at most one binding registered before and
/// after every call, and after each rebind it is the stored one, where the
/// system accepts each unregistration and refuses an empty binding.
pub proof fn lemma_rebind_twice_one_binding(
    os: Set<Seq<char>>,
    current: Seq<char>,
    first: Seq<char>,
    first_oks: Seq<bool>,
    second: Seq<char>,
    second_oks: Seq<bool>,
)
    requires
        registered_at_most(os, current),
        plausible_outcomes(planned_calls(current, first), first_oks),
        plausible_outcomes(
            planned_calls(rebound(current, first, first_oks.last()), second),
            second_oks,
        ),
    ensures
        ({
            let calls1 = planned_calls(current, first);
            let os1 = apply_calls(os, calls1, first_oks);
            let current1 = rebound(current, first, first_oks.last());
            let calls2 = planned_calls(current1, second);
            let os2 = apply_calls(os1, calls2, second_oks);
            let current2 = rebound(current1, second, second_oks.last());
            &&& forall|k: int| 0 <= k <= calls1.len()
                ==> (#[trigger] apply_calls(os, calls1.take(k), first_oks)).len() <= 1
            &&& registered_at_most(os1, current1)
            &&& forall|k: int| 0 <= k <= calls2.len()
                ==> (#[trigger] apply_calls(os1, calls2.take(k), second_oks)).len() <= 1
            &&& registered_at_most(os2, current2)
        }),
{
    lemma_rebind_keeps_one_binding(os, current, first, first_oks);
    let os1 = apply_calls(os, planned_calls(current, first), first_oks);
    let current1 = rebound(current, first, first_oks.last());
    lemma_rebind_keeps_one_binding(os1, current1, second, second_oks);
}

} // verus!
