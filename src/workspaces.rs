//! The workspace-list panel: workspace names decoded from the window system's
//! property bytes, which workspaces hold windows, the layout of one text run
//! per workspace, and the events that redraw it.
use vstd::prelude::*;
use crate::attrs::{overlay_spec, Attrs, Color};
use crate::relay::{relay_step, Relay, RelayAction, RelayState, WorkerStatus};
use crate::text::{decode_lossy, lossy_utf8};

verus! {

/// The byte string split at every NUL byte: one more piece than there are
/// NUL bytes, each piece without its NUL.
pub open spec fn split_at_nul(b: Seq<u8>) -> Seq<Seq<u8>>
    decreases b.len(),
{
    if b.len() == 0 {
        seq![Seq::empty()]
    } else {
        let init = split_at_nul(b.drop_last());
        if b.last() == 0 {
            init.push(Seq::empty())
        } else {
            init.update(init.len() - 1, init.last().push(b.last()))
        }
    }
}

/// The name of workspace `k`: the `k`-th NUL-separated piece of the names
/// property, decoded, or `?` where the property holds fewer pieces.
pub open spec fn workspace_name(names: Seq<u8>, k: int) -> Seq<char> {
    if k < split_at_nul(names).len() {
        lossy_utf8(split_at_nul(names)[k])
    } else {
        "?"@
    }
}

/// The smaller of two integers.
spec fn min_int(a: int, b: int) -> int {
    if a < b {
        a
    } else {
        b
    }
}

/// The names of the `number` workspaces, from the bytes of the names
/// property: the NUL-separated pieces in order, as many as there are
/// workspaces, with `?` for each workspace that the property does not name.
pub fn workspace_names(bytes: &[u8], number: u32) -> (r: Vec<String>)
    ensures
        r@.len() == number,
        forall|k: int| 0 <= k < number ==> #[trigger] r@[k]@ == workspace_name(bytes@, k),
{
    let mut names: Vec<String> = Vec::new();
    let mut cur: Vec<u8> = Vec::new();
    let mut i: usize = 0;
    proof {
        assert(bytes@.subrange(0, 0) =~= Seq::<u8>::empty());
    }
    while i < bytes.len()
        invariant
            0 <= i <= bytes@.len(),
            split_at_nul(bytes@.subrange(0, i as int)).len() >= 1,
            cur@ == split_at_nul(bytes@.subrange(0, i as int)).last(),
            names@.len() == min_int(
                split_at_nul(bytes@.subrange(0, i as int)).len() - 1,
                number as int,
            ),
            forall|k: int|
                0 <= k < names@.len() ==> #[trigger] names@[k]@ == lossy_utf8(
                    split_at_nul(bytes@.subrange(0, i as int))[k],
                ),
        decreases bytes@.len() - i,
    {
        let byte = bytes[i];
        let ghost before = split_at_nul(bytes@.subrange(0, i as int));
        proof {
            assert(bytes@.subrange(0, i + 1).drop_last() =~= bytes@.subrange(0, i as int));
            assert(bytes@.subrange(0, i + 1).last() == byte);
        }
        if byte == 0 {
            if names.len() < number as usize {
                let name = decode_lossy(cur.as_slice());
                names.push(name);
            }
            cur = Vec::new();
        } else {
            cur.push(byte);
        }
        i += 1;
        proof {
            let after = split_at_nul(bytes@.subrange(0, i as int));
            assert forall|k: int| 0 <= k < names@.len() implies #[trigger] names@[k]@ == lossy_utf8(
                after[k],
            ) by {
                if k < before.len() - 1 {
                    assert(after[k] == before[k]);
                }
            }
            assert(cur@ =~= after.last());
        }
    }
    proof {
        assert(bytes@.subrange(0, bytes@.len() as int) =~= bytes@);
    }
    let ghost pieces = split_at_nul(bytes@);
    if names.len() < number as usize {
        let name = decode_lossy(cur.as_slice());
        names.push(name);
    }
    while names.len() < number as usize
        invariant
            names@.len() <= number,
            names@.len() >= min_int(pieces.len() as int, number as int),
            pieces == split_at_nul(bytes@),
            forall|k: int| 0 <= k < names@.len() ==> #[trigger] names@[k]@ == workspace_name(bytes@, k),
        decreases number - names@.len(),
    {
        names.push(String::from_str("?"));
    }
    names
}

/// What the panel reads of one client window: its window type and the
/// workspace it stands on, where the window system answered.
#[derive(Clone, Copy, Debug, PartialEq, Eq, Structural)]
pub struct ClientInfo {
    pub window_type: Option<u32>,
    pub desktop: Option<u32>,
}

/// Whether client `c` is a normal window on workspace `d`.
pub open spec fn shows_on(c: ClientInfo, normal_atom: u32, d: u32) -> bool {
    c.window_type == Some(normal_atom) && c.desktop == Some(d)
}

/// The workspaces that hold at least one normal window: `d` is listed iff
/// some client is a normal window on `d`.
pub fn nonempty_desktops(clients: &[ClientInfo], normal_atom: u32) -> (r: Vec<u32>)
    ensures
        forall|d: u32|
            r@.contains(d) <==> exists|i: int|
                0 <= i < clients@.len() && #[trigger] shows_on(clients@[i], normal_atom, d),
{
    let mut r: Vec<u32> = Vec::new();
    let mut i: usize = 0;
    let ghost mut from: Seq<int> = Seq::empty();
    while i < clients.len()
        invariant
            0 <= i <= clients@.len(),
            from.len() == r@.len(),
            forall|j: int|
                0 <= j < r@.len() ==> 0 <= #[trigger] from[j] < i && shows_on(
                    clients@[from[j]],
                    normal_atom,
                    r@[j],
                ),
            forall|k: int|
                0 <= k < i && clients@[k].window_type == Some(normal_atom)
                    && #[trigger] clients@[k].desktop.is_some() ==> r@.contains(
                    clients@[k].desktop.unwrap(),
                ),
        decreases clients@.len() - i,
    {
        let c = clients[i];
        let ghost old_r = r@;
        if c.window_type == Some(normal_atom) && c.desktop.is_some() {
            let d = c.desktop.unwrap();
            r.push(d);
            proof {
                from = from.push(i as int);
            }
        }
        proof {
            assert forall|k: int|
                0 <= k < i + 1 && clients@[k].window_type == Some(normal_atom)
                    && #[trigger] clients@[k].desktop.is_some() implies r@.contains(
                clients@[k].desktop.unwrap(),
            ) by {
                let x = clients@[k].desktop.unwrap();
                if k == i {
                    assert(r@[r@.len() - 1] == x);
                } else {
                    assert(old_r.contains(x));
                    let idx = choose|idx: int| 0 <= idx < old_r.len() && old_r[idx] == x;
                    assert(r@[idx] == x);
                }
            }
        }
        i += 1;
    }
    proof {
        assert forall|d: u32|
            (exists|i: int|
                0 <= i < clients@.len() && #[trigger] shows_on(clients@[i], normal_atom, d)) implies r@.contains(d) by {
            let k = choose|i: int| 0 <= i < clients@.len() && #[trigger] shows_on(clients@[i], normal_atom, d);
            assert(clients@[k].desktop.is_some());
        }
        assert forall|d: u32|
            r@.contains(d) implies exists|i: int|
                0 <= i < clients@.len() && #[trigger] shows_on(clients@[i], normal_atom, d) by {
            let j = choose|j: int| 0 <= j < r@.len() && r@[j] == d;
            assert(shows_on(clients@[from[j]], normal_atom, d));
        }
    }
    r
}

/// How a workspace's run is styled.
#[derive(Clone, Copy, Debug, PartialEq, Eq, Structural)]
pub enum RunStyle {
    /// The focused workspace.
    Active,
    /// A workspace that holds a window.
    Nonempty,
    /// Any other workspace.
    Inactive,
}

/// The style of workspace `i`: active when focused, else nonempty when it
/// holds a window, else inactive.
pub open spec fn style_spec(i: int, current: u32, nonempty: Seq<u32>) -> RunStyle {
    if i == current {
        RunStyle::Active
    } else if exists|k: int| 0 <= k < nonempty.len() && nonempty[k] == i {
        RunStyle::Nonempty
    } else {
        RunStyle::Inactive
    }
}

/// The style of workspace `i`.
pub fn style_of(i: u32, current: u32, nonempty: &[u32]) -> (r: RunStyle)
    ensures
        r == style_spec(i as int, current, nonempty@),
{
    if i == current {
        return RunStyle::Active;
    }
    let mut k: usize = 0;
    while k < nonempty.len()
        invariant
            0 <= k <= nonempty@.len(),
            i != current,
            forall|j: int| 0 <= j < k ==> nonempty@[j] != i,
        decreases nonempty@.len() - k,
    {
        if nonempty[k] == i {
            assert(0 <= k < nonempty@.len() && nonempty@[k as int] == i as int);
            return RunStyle::Nonempty;
        }
        k += 1;
    }
    RunStyle::Inactive
}

/// A bar drawn under the focused workspace: its height in pixels and color.
#[derive(Clone, Copy, Debug, PartialEq, Eq, Structural)]
pub struct Highlight {
    pub height: u32,
    pub color: Color,
}

/// Where and how one workspace's run is painted. The run's cell starts at `x`
/// and is `cell_width` wide; its text is set `text_x` pixels in, with
/// `text_slack` pixels of height to share above and below it.
#[derive(Clone, Copy, Debug, PartialEq, Eq, Structural)]
pub struct RunPlan {
    pub index: u32,
    pub style: RunStyle,
    pub x: i64,
    pub cell_width: i64,
    pub text_x: u32,
    pub text_slack: i64,
    pub highlighted: bool,
}

/// The measured layout of the panel: its width and one run per workspace.
#[derive(Debug)]
pub struct WorkspacePlan {
    pub width: i64,
    pub runs: Vec<RunPlan>,
}

/// The width of the first `n` runs, each its text's width plus the padding.
pub open spec fn span(sizes: Seq<(i32, i32)>, padding: u32, n: int) -> int
    decreases n,
{
    if n <= 0 {
        0
    } else {
        span(sizes, padding, n - 1) + sizes[n - 1].0 + padding
    }
}

proof fn lemma_span_bounds(sizes: Seq<(i32, i32)>, padding: u32, n: int)
    requires
        0 <= n <= sizes.len(),
    ensures
        -n * 0x8000_0000 <= span(sizes, padding, n) <= n * 0x2_0000_0000,
    decreases n,
{
    if n > 0 {
        lemma_span_bounds(sizes, padding, n - 1);
        assert(-0x8000_0000 <= sizes[n - 1].0 + padding < 0x2_0000_0000);
        assert(-(n - 1) * 0x8000_0000 - 0x8000_0000 == -n * 0x8000_0000);
        assert((n - 1) * 0x2_0000_0000 + 0x2_0000_0000 == n * 0x2_0000_0000);
    }
}

/// The sum of the first `n` text widths.
pub open spec fn text_widths(sizes: Seq<(i32, i32)>, n: int) -> int
    decreases n,
{
    if n <= 0 {
        0
    } else {
        text_widths(sizes, n - 1) + sizes[n - 1].0
    }
}

/// The panel's width is the sum of its texts' widths plus one padding
/// between each two neighbouring runs: every run's width and padding, less
/// one trailing padding.
pub proof fn lemma_width_is_texts_plus_gaps(sizes: Seq<(i32, i32)>, padding: u32, n: int)
    requires
        0 <= n,
    ensures
        span(sizes, padding, n) - padding == text_widths(sizes, n) + (n - 1) * padding,
    decreases n,
{
    if n > 0 {
        lemma_width_is_texts_plus_gaps(sizes, padding, n - 1);
        assert((n - 2) * padding + padding == (n - 1) * padding) by (nonlinear_arith);
    } else {
        assert((n - 1) * padding == -padding) by (nonlinear_arith)
            requires
                n == 0,
        ;
    }
}

/// The settings of the workspace-list panel.
pub struct XWorkspaces {
    pub screen: i32,
    pub padding: u32,
    pub highlight: Option<Highlight>,
    pub active: Attrs,
    pub nonempty: Attrs,
    pub inactive: Attrs,
}

impl XWorkspaces {
    /// The panel with the given settings.
    pub fn new(
        screen: i32,
        padding: u32,
        highlight: Option<Highlight>,
        active: Attrs,
        nonempty: Attrs,
        inactive: Attrs,
    ) -> (r: XWorkspaces)
        ensures
            r == (XWorkspaces { screen, padding, highlight, active, nonempty, inactive }),
    {
        XWorkspaces { screen, padding, highlight, active, nonempty, inactive }
    }

    /// The attributes of a style.
    pub open spec fn attrs_spec(&self, style: RunStyle) -> Attrs {
        match style {
            RunStyle::Active => self.active,
            RunStyle::Nonempty => self.nonempty,
            RunStyle::Inactive => self.inactive,
        }
    }

    /// The attributes of a style.
    pub fn attrs_for(&self, style: RunStyle) -> (r: &Attrs)
        ensures
            *r == self.attrs_spec(style),
    {
        match style {
            RunStyle::Active => &self.active,
            RunStyle::Nonempty => &self.nonempty,
            RunStyle::Inactive => &self.inactive,
        }
    }

    /// Overlays each style's attributes onto the bar's global ones.
    pub fn apply_global_attrs(&mut self, global: &Attrs)
        ensures
            final(self).active == overlay_spec(*global, old(self).active),
            final(self).nonempty == overlay_spec(*global, old(self).nonempty),
            final(self).inactive == overlay_spec(*global, old(self).inactive),
            final(self).screen == old(self).screen,
            final(self).padding == old(self).padding,
            final(self).highlight == old(self).highlight,
    {
        self.active.apply_to(global);
        self.nonempty.apply_to(global);
        self.inactive.apply_to(global);
    }

    /// The run of workspace `i`, whose text measures `sizes[i]`.
    pub open spec fn run_spec(
        &self,
        sizes: Seq<(i32, i32)>,
        current: u32,
        nonempty: Seq<u32>,
        height: i32,
        i: int,
    ) -> RunPlan {
        RunPlan {
            index: i as u32,
            style: style_spec(i, current, nonempty),
            x: span(sizes, self.padding, i) as i64,
            cell_width: (sizes[i].0 + self.padding) as i64,
            text_x: self.padding / 2,
            text_slack: (height - sizes[i].1) as i64,
            highlighted: i == current && self.highlight.is_some(),
        }
    }

    /// Lays out one run per workspace, from the measured size of each name's
    /// text. The panel is as wide as every run's width plus the padding
    /// between runs: the sum of each text's width and the padding, less one
    /// padding. Runs stand side by side in order.
    pub fn plan(&self, sizes: &[(i32, i32)], current: u32, nonempty: &[u32], height: i32) -> (r:
        WorkspacePlan)
        requires
            sizes@.len() < 0x1000_0000,
        ensures
            r.width == span(sizes@, self.padding, sizes@.len() as int) - self.padding,
            r.runs@.len() == sizes@.len(),
            forall|i: int|
                0 <= i < sizes@.len() ==> #[trigger] r.runs@[i] == self.run_spec(
                    sizes@,
                    current,
                    nonempty@,
                    height,
                    i,
                ),
    {
        let mut runs: Vec<RunPlan> = Vec::new();
        let mut x: i64 = 0;
        let mut i: usize = 0;
        while i < sizes.len()
            invariant
                0 <= i <= sizes@.len() < 0x1000_0000,
                x == span(sizes@, self.padding, i as int),
                runs@.len() == i,
                forall|k: int|
                    0 <= k < i ==> #[trigger] runs@[k] == self.run_spec(
                        sizes@,
                        current,
                        nonempty@,
                        height,
                        k,
                    ),
            decreases sizes@.len() - i,
        {
            let (w, h) = sizes[i];
            proof {
                lemma_span_bounds(sizes@, self.padding, i as int + 1);
            }
            let cell_width: i64 = w as i64 + self.padding as i64;
            let style = style_of(i as u32, current, nonempty);
            let run = RunPlan {
                index: i as u32,
                style,
                x,
                cell_width,
                text_x: self.padding / 2,
                text_slack: height as i64 - h as i64,
                highlighted: i as u32 == current && self.highlight.is_some(),
            };
            runs.push(run);
            x = x + cell_width;
            i += 1;
        }
        proof {
            lemma_span_bounds(sizes@, self.padding, sizes@.len() as int);
        }
        WorkspacePlan { width: x - self.padding as i64, runs }
    }
}

/// The window-system properties whose change redraws the panel: the number
/// of workspaces, the focused one, and their names.
#[derive(Clone, Copy, Debug, PartialEq, Eq, Structural)]
pub struct WatchList {
    pub number_atom: u32,
    pub current_atom: u32,
    pub names_atom: u32,
}

impl WatchList {
    /// Whether a change of property `atom` redraws the panel.
    pub fn watches(&self, atom: u32) -> (r: bool)
        ensures
            r == (atom == self.number_atom || atom == self.current_atom || atom
                == self.names_atom),
    {
        atom == self.number_atom || atom == self.current_atom || atom == self.names_atom
    }
}

/// The panel's update source: one signal at once, so that the panel shows
/// content before any event, then one each time a worker that waits for a
/// watched property change comes back.
pub struct WorkspaceEvents {
    pub started: bool,
    pub relay: Relay,
}

impl WorkspaceEvents {
    /// A source whose first poll signals.
    pub fn new() -> (r: WorkspaceEvents)
        ensures
            !r.started,
            r.relay.state == RelayState::Idle,
    {
        WorkspaceEvents { started: false, relay: Relay::new() }
    }

    /// One poll: the first delivers at once and starts nothing; later ones
    /// follow the one-outstanding-worker discipline.
    pub fn poll(&mut self, seen: WorkerStatus<()>) -> (action: RelayAction<()>)
        ensures
            final(self).started,
            !old(self).started ==> action is Deliver && final(self).relay == old(self).relay,
            old(self).started ==> (final(self).relay.state, action) == relay_step(
                old(self).relay.state,
                seen,
            ),
    {
        if !self.started {
            self.started = true;
            RelayAction::Deliver(())
        } else {
            self.relay.poll(seen)
        }
    }
}

} // verus!
