use vstd::prelude::*;

verus! {

/// Why an operation through a handle was refused.
#[derive(Clone, Copy, PartialEq, Eq, Structural, Debug)]
pub enum BridgeError {
    /// The handle's call has returned: it no longer reaches any region.
    StaleHandle,
    /// The handle's call is still open, but a call nested in it is running:
    /// only the innermost call may touch the tree.
    Busy,
    /// Every generation number has been handed out.
    Exhausted,
}

/// The script's view of one region: valid only while the call that made it
/// is the innermost open call.
#[derive(Clone, Copy, PartialEq, Eq, Structural, Debug)]
pub struct ScriptHandle {
    /// How deep the call that made it is nested.
    pub level: usize,
    /// The generation that was current when the call began.
    pub generation: u64,
}

/// What a node of the tree built this frame is.
#[derive(PartialEq, Eq, Debug)]
pub enum NodeKind {
    Root,
    Container(String),
    Widget(String),
}

/// A node of the tree built this frame; `parent` is the index of the region
/// it was added to.
#[derive(PartialEq, Eq, Debug)]
pub struct UiNode {
    pub parent: usize,
    pub kind: NodeKind,
}

/// An open call: the region it works on and its generation.
#[derive(Clone, Copy, PartialEq, Eq, Structural, Debug)]
pub struct OpenScope {
    pub region: usize,
    pub generation: u64,
}

/// The state of the bridge as a mathematical value.
pub struct ArenaModel {
    /// The open calls, outermost first.
    pub scopes: Seq<OpenScope>,
    /// The tree built so far this frame; node 0 is the root region.
    pub nodes: Seq<UiNode>,
    /// The generation the next call will get.
    pub next_generation: u64,
}

/// The open calls of one frame and the tree they have built.
pub struct ScopeArena {
    scopes: Vec<OpenScope>,
    nodes: Vec<UiNode>,
    next_generation: u64,
}

impl View for ScopeArena {
    type V = ArenaModel;

    closed spec fn view(&self) -> ArenaModel {
        ArenaModel {
            scopes: self.scopes@,
            nodes: self.nodes@,
            next_generation: self.next_generation,
        }
    }
}

/// The bridge's invariant: generations of open calls rise strictly from the
/// outermost call inward and stay below the next one; every region is a node
/// of the tree; every node but the root hangs below an earlier node.
pub open spec fn arena_wf(m: ArenaModel) -> bool {
    &&& 1 <= m.nodes.len() <= usize::MAX
    &&& m.nodes[0].kind is Root
    &&& forall|i: int| 0 < i < m.nodes.len() ==> m.nodes[i].parent < i
    &&& forall|i: int| 0 <= i < m.scopes.len() ==> m.scopes[i].region < m.nodes.len()
    &&& forall|i: int| 0 <= i < m.scopes.len() ==> m.scopes[i].generation < m.next_generation
    &&& forall|i: int, j: int|
        0 <= i < j < m.scopes.len() ==> m.scopes[i].generation < m.scopes[j].generation
}

/// Whether `h`'s call is still open.
pub open spec fn is_live(m: ArenaModel, h: ScriptHandle) -> bool {
    h.level < m.scopes.len() && m.scopes[h.level as int].generation == h.generation
}

/// Whether `h` was handed out and its call has returned.
pub open spec fn is_retired(m: ArenaModel, h: ScriptHandle) -> bool {
    h.generation < m.next_generation && !is_live(m, h)
}

/// What an operation through `h` reaches: the region of its call when that
/// call is the innermost open one.
pub open spec fn access(m: ArenaModel, h: ScriptHandle) -> Result<usize, BridgeError> {
    if !is_live(m, h) {
        Err(BridgeError::StaleHandle)
    } else if h.level + 1 != m.scopes.len() {
        Err(BridgeError::Busy)
    } else {
        Ok(m.scopes[h.level as int].region)
    }
}

/// A handle that is retired stays retired.
pub open spec fn keeps_retired(before: ArenaModel, after: ArenaModel) -> bool {
    forall|h: ScriptHandle| is_retired(before, h) ==> #[trigger] is_retired(after, h)
}

/// The node every frame's tree starts from.
pub open spec fn root_node() -> UiNode {
    UiNode { parent: 0, kind: NodeKind::Root }
}

/// One step of a recorded build, taken through the innermost open call.
#[derive(Debug)]
pub enum BuildStep {
    /// Open a nested call on a new container region.
    Enter(String),
    /// Add a widget.
    Widget(String),
    /// End the innermost call.
    Leave,
}

/// The tree that `steps` build from `nodes`, with the regions of the open
/// calls in `open`; `None` where a step comes after every call has ended.
pub open spec fn replay_from(nodes: Seq<UiNode>, open: Seq<usize>, steps: Seq<BuildStep>) -> Option<
    Seq<UiNode>,
>
    decreases steps.len(),
{
    if steps.len() == 0 {
        Some(nodes)
    } else if open.len() == 0 {
        None
    } else {
        let rest = steps.drop_first();
        match steps[0] {
            BuildStep::Enter(name) => replay_from(
                nodes.push(UiNode { parent: open.last(), kind: NodeKind::Container(name) }),
                open.push(nodes.len() as usize),
                rest,
            ),
            BuildStep::Widget(name) => replay_from(
                nodes.push(UiNode { parent: open.last(), kind: NodeKind::Widget(name) }),
                open,
                rest,
            ),
            BuildStep::Leave => replay_from(nodes, open.drop_last(), rest),
        }
    }
}

/// The tree of a frame whose build took `steps`, starting from the root call.
pub open spec fn frame_tree(steps: Seq<BuildStep>) -> Option<Seq<UiNode>> {
    replay_from(seq![root_node()], seq![0usize], steps)
}

/// The regions of the open calls, outermost first.
pub open spec fn regions(m: ArenaModel) -> Seq<usize> {
    m.scopes.map_values(|s: OpenScope| s.region)
}

/// `b` is `a` after one build step taken through the innermost open call:
/// the tree and the regions of the open calls change as the step says, and
/// in no way that depends on handles or generations.
pub open spec fn took_step(a: ArenaModel, step: BuildStep, b: ArenaModel) -> bool {
    &&& a.scopes.len() > 0
    &&& match step {
        BuildStep::Enter(name) => {
            &&& b.nodes == a.nodes.push(
                UiNode { parent: regions(a).last(), kind: NodeKind::Container(name) },
            )
            &&& regions(b) == regions(a).push(a.nodes.len() as usize)
        },
        BuildStep::Widget(name) => {
            &&& b.nodes == a.nodes.push(
                UiNode { parent: regions(a).last(), kind: NodeKind::Widget(name) },
            )
            &&& regions(b) == regions(a)
        },
        BuildStep::Leave => {
            &&& b.nodes == a.nodes
            &&& regions(b) == regions(a).drop_last()
        },
    }
}

impl ScopeArena {
    /// A bridge with no open call and a tree that holds only the root.
    pub fn new() -> (r: ScopeArena)
        ensures
            arena_wf(r@),
            r@.scopes.len() == 0,
            r@.nodes == seq![root_node()],
            r@.next_generation == 0,
    {
        let mut nodes: Vec<UiNode> = Vec::new();
        nodes.push(UiNode { parent: 0, kind: NodeKind::Root });
        let r = ScopeArena { scopes: Vec::new(), nodes, next_generation: 0 };
        proof {
            assert(r@.nodes =~= seq![root_node()]);
        }
        r
    }

    /// Starts a frame from a clean tree: every open call is abandoned and the
    /// tree holds only the root. Generations go on from where they were, so
    /// no handle of an earlier frame comes back to life.
    pub fn begin_frame(&mut self)
        requires
            arena_wf(old(self)@),
        ensures
            arena_wf(final(self)@),
            final(self)@.scopes.len() == 0,
            final(self)@.nodes == seq![root_node()],
            final(self)@.next_generation == old(self)@.next_generation,
            keeps_retired(old(self)@, final(self)@),
    {
        self.scopes = Vec::new();
        let mut nodes: Vec<UiNode> = Vec::new();
        nodes.push(UiNode { parent: 0, kind: NodeKind::Root });
        self.nodes = nodes;
        proof {
            assert(self@.nodes =~= seq![root_node()]);
        }
    }

    /// How many calls are open.
    pub fn depth(&self) -> (d: usize)
        ensures
            d == self@.scopes.len(),
    {
        self.scopes.len()
    }

    /// How many nodes the tree has.
    pub fn node_count(&self) -> (n: usize)
        ensures
            n == self@.nodes.len(),
    {
        self.nodes.len()
    }

    /// The node at index `i` of the tree.
    pub fn node(&self, i: usize) -> (n: &UiNode)
        requires
            i < self@.nodes.len(),
        ensures
            *n == self@.nodes[i as int],
    {
        &self.nodes[i]
    }

    /// Whether `h`'s call is still open.
    pub fn is_live(&self, h: ScriptHandle) -> (r: bool)
        ensures
            r == is_live(self@, h),
    {
        h.level < self.scopes.len() && self.scopes[h.level].generation == h.generation
    }

    /// The region that an operation through `h` reaches (see `access`).
    pub fn check(&self, h: ScriptHandle) -> (r: Result<usize, BridgeError>)
        ensures
            r == access(self@, h),
    {
        if !(h.level < self.scopes.len() && self.scopes[h.level].generation == h.generation) {
            Err(BridgeError::StaleHandle)
        } else if h.level + 1 != self.scopes.len() {
            Err(BridgeError::Busy)
        } else {
            Ok(self.scopes[h.level].region)
        }
    }

    fn push_scope(&mut self, region: usize) -> (h: ScriptHandle)
        requires
            arena_wf(old(self)@),
            region < old(self)@.nodes.len(),
            old(self)@.next_generation < u64::MAX,
        ensures
            arena_wf(final(self)@),
            final(self)@.nodes == old(self)@.nodes,
            final(self)@.scopes == old(self)@.scopes.push(
                OpenScope { region, generation: old(self)@.next_generation },
            ),
            final(self)@.next_generation == old(self)@.next_generation + 1,
            h == (ScriptHandle {
                level: old(self)@.scopes.len() as usize,
                generation: old(self)@.next_generation,
            }),
            access(final(self)@, h) == Ok::<usize, BridgeError>(region),
            keeps_retired(old(self)@, final(self)@),
    {
        let g = self.next_generation;
        let level = self.scopes.len();
        self.scopes.push(OpenScope { region, generation: g });
        self.next_generation = g + 1;
        let h = ScriptHandle { level, generation: g };
        proof {
            let a = old(self)@;
            let b = self@;
            assert forall|k: ScriptHandle| is_retired(a, k) implies #[trigger] is_retired(b, k) by {
                if k.level < a.scopes.len() {
                    assert(b.scopes[k.level as int] == a.scopes[k.level as int]);
                }
            }
        }
        h
    }

    /// Opens the call on the root region. Refused while any call is open.
    pub fn open_root(&mut self) -> (r: Result<ScriptHandle, BridgeError>)
        requires
            arena_wf(old(self)@),
        ensures
            arena_wf(final(self)@),
            keeps_retired(old(self)@, final(self)@),
            final(self)@.nodes == old(self)@.nodes,
            old(self)@.scopes.len() != 0 ==> r == Err::<ScriptHandle, BridgeError>(
                BridgeError::Busy,
            ) && final(self)@ == old(self)@,
            old(self)@.scopes.len() == 0 && old(self)@.next_generation == u64::MAX ==> r == Err::<
                ScriptHandle,
                BridgeError,
            >(BridgeError::Exhausted) && final(self)@ == old(self)@,
            old(self)@.scopes.len() == 0 && old(self)@.next_generation < u64::MAX ==> (r matches Ok(
                h,
            ) && h.generation == old(self)@.next_generation && access(final(self)@, h) == Ok::<
                usize,
                BridgeError,
            >(0)) && regions(final(self)@) == seq![0usize]
                && final(self)@.next_generation == old(self)@.next_generation + 1,
    {
        if self.scopes.len() != 0 {
            return Err(BridgeError::Busy);
        }
        if self.next_generation == u64::MAX {
            return Err(BridgeError::Exhausted);
        }
        let h = self.push_scope(0);
        proof {
            assert(regions(self@) =~= seq![0usize]);
        }
        Ok(h)
    }

    /// Opens a call nested in `parent`'s call, on a new container region added
    /// to `parent`'s region. Only the innermost open call may do so.
    pub fn open_child(&mut self, parent: ScriptHandle, container: String) -> (r: Result<
        ScriptHandle,
        BridgeError,
    >)
        requires
            arena_wf(old(self)@),
        ensures
            arena_wf(final(self)@),
            keeps_retired(old(self)@, final(self)@),
            access(old(self)@, parent) matches Err(e) ==> r == Err::<ScriptHandle, BridgeError>(e)
                && final(self)@ == old(self)@,
            access(old(self)@, parent) is Ok && (old(self)@.next_generation == u64::MAX
                || old(self)@.nodes.len() == usize::MAX) ==> r == Err::<ScriptHandle, BridgeError>(
                BridgeError::Exhausted,
            ) && final(self)@ == old(self)@,
            access(old(self)@, parent) is Ok && old(self)@.next_generation < u64::MAX
                && old(self)@.nodes.len() < usize::MAX ==> {
                &&& r matches Ok(h)
                &&& h.generation == old(self)@.next_generation
                &&& final(self)@.nodes == old(self)@.nodes.push(
                    UiNode {
                        parent: access(old(self)@, parent)->Ok_0,
                        kind: NodeKind::Container(container),
                    },
                )
                &&& regions(final(self)@) == regions(old(self)@).push(
                    old(self)@.nodes.len() as usize,
                )
                &&& final(self)@.scopes == old(self)@.scopes.push(
                    OpenScope {
                        region: old(self)@.nodes.len() as usize,
                        generation: old(self)@.next_generation,
                    },
                )
                &&& final(self)@.next_generation == old(self)@.next_generation + 1
                &&& access(final(self)@, h) == Ok::<usize, BridgeError>(
                    old(self)@.nodes.len() as usize,
                )
                &&& access(final(self)@, parent) == Err::<usize, BridgeError>(BridgeError::Busy)
                &&& took_step(old(self)@, BuildStep::Enter(container), final(self)@)
            },
    {
        let region = match self.check(parent) {
            Ok(region) => region,
            Err(e) => return Err(e),
        };
        if self.next_generation == u64::MAX {
            return Err(BridgeError::Exhausted);
        }
        if self.nodes.len() == usize::MAX {
            // A tree this large cannot be built in memory; treat it as spent.
            return Err(BridgeError::Exhausted);
        }
        let idx = self.nodes.len();
        self.nodes.push(UiNode { parent: region, kind: NodeKind::Container(container) });
        let ghost mid = self@;
        proof {
            assert(keeps_retired(old(self)@, mid));
        }
        let h = self.push_scope(idx);
        proof {
            assert(regions(self@) =~= regions(old(self)@).push(idx));
        }
        Ok(h)
    }

    /// Ends `h`'s call. Only the innermost open call may end; a stale handle
    /// is refused.
    pub fn close(&mut self, h: ScriptHandle) -> (r: Result<(), BridgeError>)
        requires
            arena_wf(old(self)@),
        ensures
            arena_wf(final(self)@),
            keeps_retired(old(self)@, final(self)@),
            final(self)@.nodes == old(self)@.nodes,
            final(self)@.next_generation == old(self)@.next_generation,
            access(old(self)@, h) matches Err(e) ==> r == Err::<(), BridgeError>(e) && final(self)@
                == old(self)@,
            access(old(self)@, h) is Ok ==> r is Ok && final(self)@.scopes
                == old(self)@.scopes.drop_last() && is_retired(final(self)@, h) && took_step(
                old(self)@,
                BuildStep::Leave,
                final(self)@,
            ),
    {
        match self.check(h) {
            Err(e) => Err(e),
            Ok(_) => {
                self.scopes.pop();
                proof {
                    let a = old(self)@;
                    let b = self@;
                    assert(b.scopes =~= a.scopes.drop_last());
                    assert(regions(b) =~= regions(a).drop_last());
                    assert forall|k: ScriptHandle| is_retired(a, k) implies #[trigger] is_retired(
                        b,
                        k,
                    ) by {
                        if k.level < b.scopes.len() {
                            assert(b.scopes[k.level as int] == a.scopes[k.level as int]);
                        }
                    }
                }
                Ok(())
            },
        }
    }

    /// Adds a widget to `h`'s region and returns its node's index. Only the
    /// innermost open call may do so; otherwise nothing changes.
    pub fn add_widget(&mut self, h: ScriptHandle, widget: String) -> (r: Result<usize, BridgeError>)
        requires
            arena_wf(old(self)@),
        ensures
            arena_wf(final(self)@),
            keeps_retired(old(self)@, final(self)@),
            final(self)@.scopes == old(self)@.scopes,
            final(self)@.next_generation == old(self)@.next_generation,
            access(old(self)@, h) matches Err(e) ==> r == Err::<usize, BridgeError>(e)
                && final(self)@ == old(self)@,
            access(old(self)@, h) is Ok && old(self)@.nodes.len() < usize::MAX ==> r == Ok::<
                usize,
                BridgeError,
            >(old(self)@.nodes.len() as usize) && final(self)@.nodes == old(self)@.nodes.push(
                UiNode { parent: access(old(self)@, h)->Ok_0, kind: NodeKind::Widget(widget) },
            ) && took_step(old(self)@, BuildStep::Widget(widget), final(self)@),
            access(old(self)@, h) is Ok && old(self)@.nodes.len() == usize::MAX ==> r == Err::<
                usize,
                BridgeError,
            >(BridgeError::Exhausted) && final(self)@ == old(self)@,
    {
        let region = match self.check(h) {
            Ok(region) => region,
            Err(e) => return Err(e),
        };
        if self.nodes.len() == usize::MAX {
            return Err(BridgeError::Exhausted);
        }
        let idx = self.nodes.len();
        self.nodes.push(UiNode { parent: region, kind: NodeKind::Widget(widget) });
        Ok(idx)
    }
}


impl ScopeArena {
    /// Starts a new frame and replays a recorded build in it: each step goes
    /// through the innermost open call, and the calls still open at the end
    /// are closed. The tree that results depends on the steps alone.
    pub fn rebuild(&mut self, steps: &Vec<BuildStep>) -> (r: Result<(), BridgeError>)
        requires
            arena_wf(old(self)@),
        ensures
            arena_wf(final(self)@),
            keeps_retired(old(self)@, final(self)@),
            r is Ok ==> frame_tree(steps@) == Some(final(self)@.nodes) && final(self)@.scopes.len()
                == 0,
            frame_tree(steps@) is None ==> r is Err,
            r matches Err(e) ==> e == BridgeError::Exhausted || frame_tree(steps@) is None,
            frame_tree(steps@) is Some && old(self)@.next_generation + steps@.len() < u64::MAX
                && steps@.len() + 1 < usize::MAX ==> r is Ok,
            final(self)@.next_generation <= old(self)@.next_generation + steps@.len() + 1,
    {
        self.begin_frame();
        let root = match self.open_root() {
            Ok(h) => h,
            Err(e) => {
                return Err(e);
            },
        };
        let mut handles: Vec<ScriptHandle> = Vec::new();
        handles.push(root);
        let ghost mut nodes: Seq<UiNode> = seq![root_node()];
        let ghost mut open: Seq<usize> = seq![0usize];
        proof {
            assert(steps@.subrange(0, steps@.len() as int) =~= steps@);
        }
        let mut i: usize = 0;
        while i < steps.len()
            invariant
                arena_wf(self@),
                keeps_retired(old(self)@, self@),
                i <= steps@.len(),
                handles@.len() == self@.scopes.len(),
                forall|j: int|
                    0 <= j < handles@.len() ==> #[trigger] handles@[j] == (ScriptHandle {
                        level: j as usize,
                        generation: self@.scopes[j].generation,
                    }),
                regions(self@) == open,
                self@.nodes == nodes,
                replay_from(nodes, open, steps@.subrange(i as int, steps@.len() as int))
                    == frame_tree(steps@),
                self@.next_generation <= old(self)@.next_generation + 1 + i,
                self@.nodes.len() <= 1 + i,
            decreases steps@.len() - i,
        {
            let ghost rest = steps@.subrange(i as int, steps@.len() as int);
            proof {
                assert(rest.drop_first() =~= steps@.subrange(i + 1, steps@.len() as int));
            }
            if handles.len() == 0 {
                return Err(BridgeError::StaleHandle);
            }
            let top = handles[handles.len() - 1];
            let ghost before = self@;
            proof {
                assert(handles@[handles@.len() - 1] == top);
                assert(regions(before).last() == before.scopes.last().region);
                assert(access(before, top) == Ok::<usize, BridgeError>(open.last()));
            }
            match &steps[i] {
                BuildStep::Enter(name) => {
                    match self.open_child(top, name.clone()) {
                        Ok(h) => {
                            handles.push(h);
                            proof {
                                nodes = nodes.push(
                                    UiNode { parent: open.last(), kind: NodeKind::Container(*name) },
                                );
                                open = open.push(before.nodes.len() as usize);
                            }
                        },
                        Err(e) => {
                            return Err(e);
                        },
                    }
                },
                BuildStep::Widget(name) => {
                    match self.add_widget(top, name.clone()) {
                        Ok(_) => {
                            proof {
                                nodes = nodes.push(
                                    UiNode { parent: open.last(), kind: NodeKind::Widget(*name) },
                                );
                            }
                        },
                        Err(e) => {
                            return Err(e);
                        },
                    }
                },
                BuildStep::Leave => {
                    let _ = self.close(top);
                    handles.pop();
                    proof {
                        open = open.drop_last();
                        assert(regions(self@) =~= open);
                    }
                },
            }
            i = i + 1;
        }
        proof {
            assert(steps@.subrange(i as int, steps@.len() as int).len() == 0);
        }
        while handles.len() > 0
            invariant
                arena_wf(self@),
                keeps_retired(old(self)@, self@),
                handles@.len() == self@.scopes.len(),
                forall|j: int|
                    0 <= j < handles@.len() ==> #[trigger] handles@[j] == (ScriptHandle {
                        level: j as usize,
                        generation: self@.scopes[j].generation,
                    }),
                self@.nodes == nodes,
                frame_tree(steps@) == Some(nodes),
                self@.next_generation <= old(self)@.next_generation + 1 + steps@.len(),
            decreases handles@.len(),
        {
            let top = handles[handles.len() - 1];
            proof {
                assert(handles@[handles@.len() - 1] == top);
            }
            let _ = self.close(top);
            handles.pop();
        }
        Ok(())
    }
}

/// The tree that a build pass reaches: starting from a fresh frame with the
/// root call open, a pass whose operations took `steps` one after another
/// (`open_child`, `add_widget` and `close`, each through the innermost open
/// call) has built `frame_tree(steps)`.
pub proof fn lemma_build_pass_tree(ms: Seq<ArenaModel>, steps: Seq<BuildStep>)
    requires
        ms.len() == steps.len() + 1,
        ms[0].nodes == seq![root_node()],
        regions(ms[0]) == seq![0usize],
        forall|i: int| 0 <= i < steps.len() ==> took_step(#[trigger] ms[i], steps[i], ms[i + 1]),
    ensures
        frame_tree(steps) == Some(ms.last().nodes),
{
    lemma_build_pass_from(ms, steps, 0);
    assert(steps.subrange(0, steps.len() as int) =~= steps);
}

proof fn lemma_build_pass_from(ms: Seq<ArenaModel>, steps: Seq<BuildStep>, k: int)
    requires
        ms.len() == steps.len() + 1,
        0 <= k <= steps.len(),
        forall|i: int| 0 <= i < steps.len() ==> took_step(#[trigger] ms[i], steps[i], ms[i + 1]),
    ensures
        replay_from(ms[k].nodes, regions(ms[k]), steps.subrange(k, steps.len() as int)) == Some(
            ms.last().nodes,
        ),
    decreases steps.len() - k,
{
    if k < steps.len() {
        lemma_build_pass_from(ms, steps, k + 1);
        let rest = steps.subrange(k, steps.len() as int);
        assert(rest.drop_first() =~= steps.subrange(k + 1, steps.len() as int));
        assert(rest[0] == steps[k]);
        assert(took_step(ms[k], steps[k], ms[k + 1]));
        assert(regions(ms[k]).len() == ms[k].scopes.len());
    } else {
        assert(steps.subrange(k, steps.len() as int).len() == 0);
    }
}

/// Frame rebuild determinism: two build passes that take the same steps,
/// each from a fresh frame with the root call open, build the same tree,
/// whatever the generations of their handles and whatever came before.
pub proof fn lemma_build_pass_deterministic(
    first: Seq<ArenaModel>,
    second: Seq<ArenaModel>,
    steps: Seq<BuildStep>,
)
    requires
        first.len() == steps.len() + 1,
        second.len() == steps.len() + 1,
        first[0].nodes == seq![root_node()],
        second[0].nodes == seq![root_node()],
        regions(first[0]) == seq![0usize],
        regions(second[0]) == seq![0usize],
        forall|i: int| 0 <= i < steps.len() ==> took_step(#[trigger] first[i], steps[i], first[i + 1]),
        forall|i: int|
            0 <= i < steps.len() ==> took_step(#[trigger] second[i], steps[i], second[i + 1]),
    ensures
        first.last().nodes == second.last().nodes,
{
    lemma_build_pass_tree(first, steps);
    lemma_build_pass_tree(second, steps);
}

/// Nested calls: while a call nested in `outer`'s call runs, `outer` is busy
/// and only `inner` reaches a region, the new one; once the nested call has
/// ended, `inner` is stale and `outer` reaches its own region again.
pub proof fn lemma_nested_handles(
    before: ArenaModel,
    inside: ArenaModel,
    after: ArenaModel,
    outer: ScriptHandle,
    inner: ScriptHandle,
)
    requires
        arena_wf(before),
        access(before, outer) is Ok,
        inner.level == before.scopes.len(),
        inner.generation == before.next_generation,
        inside.scopes == before.scopes.push(
            OpenScope { region: before.nodes.len() as usize, generation: before.next_generation },
        ),
        inside.next_generation == before.next_generation + 1,
        after.scopes == inside.scopes.drop_last(),
        after.next_generation == inside.next_generation,
    ensures
        access(inside, outer) == Err::<usize, BridgeError>(BridgeError::Busy),
        access(inside, inner) == Ok::<usize, BridgeError>(before.nodes.len() as usize),
        access(after, inner) == Err::<usize, BridgeError>(BridgeError::StaleHandle),
        access(after, outer) == access(before, outer),
{
    assert(after.scopes =~= before.scopes);
}

/// A retired handle reaches nothing: every operation through it is refused
/// as stale.
pub proof fn lemma_retired_is_stale(m: ArenaModel, h: ScriptHandle)
    requires
        is_retired(m, h),
    ensures
        access(m, h) == Err::<usize, BridgeError>(BridgeError::StaleHandle),
{
}

/// Handle scoping: once the call that made `h` has returned, `h` is refused
/// as stale in every later state, however many calls are opened and closed
/// after it, nested or not, and in later frames too. Every operation of the
/// arena keeps retired handles retired, and `close` retires its handle.
pub proof fn lemma_handle_scoping(trace: Seq<ArenaModel>, h: ScriptHandle)
    requires
        trace.len() >= 1,
        is_retired(trace[0], h),
        forall|i: int| 0 <= i < trace.len() - 1 ==> keeps_retired(#[trigger] trace[i], trace[i + 1]),
    ensures
        forall|i: int|
            0 <= i < trace.len() ==> access(#[trigger] trace[i], h) == Err::<usize, BridgeError>(
                BridgeError::StaleHandle,
            ),
{
    assert forall|i: int| 0 <= i < trace.len() implies is_retired(#[trigger] trace[i], h) by {
        lemma_retired_along(trace, h, i);
    }
}

proof fn lemma_retired_along(trace: Seq<ArenaModel>, h: ScriptHandle, i: int)
    requires
        0 <= i < trace.len(),
        is_retired(trace[0], h),
        forall|j: int| 0 <= j < trace.len() - 1 ==> keeps_retired(#[trigger] trace[j], trace[j + 1]),
    ensures
        is_retired(trace[i], h),
    decreases i,
{
    if i > 0 {
        lemma_retired_along(trace, h, i - 1);
        assert(keeps_retired(trace[i - 1], trace[i]));
    }
}

} // verus!
