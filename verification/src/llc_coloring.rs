//! The coloring authority: it resolves the configured mode and the cache
//! geometry into a color universe, checks it, and publishes it once.

use vstd::prelude::*;
use vstd::arithmetic::power2::is_pow2;
use crate::cell::{cell_call_once, cell_get, cell_new, cell_value};
use crate::colors::{
    active_colors_valid, all_in_range, build_all_colors, check_active_colors, color_count,
    color_range, default_active_colors, default_color_count, derive_max_colors,
    is_first_out_of_range, is_page_multiple, max_colors_of,
};
use crate::consts::PAGE_SIZE;
use crate::error::InitError;

verus! {

/// What the boot configuration asks for.
#[derive(Clone, Copy, Debug, PartialEq, Eq, Structural)]
pub enum LLCColoringMode {
    Unspecified,
    Disabled,
    Enabled,
}

/// The mode that a configuration integer stands for.
pub open spec fn mode_of(raw: usize) -> LLCColoringMode {
    if raw == 0 {
        LLCColoringMode::Disabled
    } else if raw == 1 {
        LLCColoringMode::Enabled
    } else {
        LLCColoringMode::Unspecified
    }
}

/// Reads the mode out of the configuration integer: 0 disables coloring,
/// 1 enables it, anything else leaves it unspecified.
pub fn opt_llc_coloring_mode(raw: usize) -> (mode: LLCColoringMode)
    ensures
        mode == mode_of(raw),
{
    match raw {
        0 => LLCColoringMode::Disabled,
        1 => LLCColoringMode::Enabled,
        _ => LLCColoringMode::Unspecified,
    }
}

/// What the boot configuration supplies before the authority runs.
#[derive(Debug)]
pub struct ColoringConfig {
    /// The coloring mode, as the configuration integer.
    pub mode: usize,
    /// Total size of the last-level cache in bytes, where it is known
    /// without probing.
    pub llc_total_size: Option<usize>,
    /// Number of ways of the last-level cache, where it is known without
    /// probing.
    pub llc_nr_ways: Option<usize>,
    /// The colors that the hypervisor is to draw frames from, where the
    /// configuration names them.
    pub hvisor_color: Option<Vec<usize>>,
}

/// An optional list of colors as an optional sequence.
pub open spec fn colors_view(colors: Option<Vec<usize>>) -> Option<Seq<usize>> {
    match colors {
        Some(colors) => Some(colors@),
        None => None,
    }
}

impl ColoringConfig {
    /// Whether the cache geometry was supplied and is to be trusted: both
    /// numbers are there and coloring is not disabled. The mode need not be
    /// `Enabled` for this.
    pub open spec fn has_override(&self) -> bool {
        &&& mode_of(self.mode) != LLCColoringMode::Disabled
        &&& self.llc_total_size is Some
        &&& self.llc_nr_ways is Some
    }

    /// Whether the way size has to be probed from the hardware.
    pub open spec fn wants_probe(&self) -> bool {
        !self.has_override() && mode_of(self.mode) == LLCColoringMode::Enabled
    }

    /// The requested active colors as a sequence.
    pub open spec fn requested_colors(&self) -> Option<Seq<usize>> {
        colors_view(self.hvisor_color)
    }

    /// The way size to color with: `Ok(None)` where coloring is off,
    /// because it was not asked for or because the probe found nothing.
    pub open spec fn way_size(&self, probed: Option<usize>) -> Result<Option<usize>, InitError> {
        if self.has_override() {
            if self.llc_nr_ways->Some_0 == 0 {
                Err(InitError::ZeroWayCount)
            } else {
                Ok(Some((self.llc_total_size->Some_0 / self.llc_nr_ways->Some_0) as usize))
            }
        } else if mode_of(self.mode) != LLCColoringMode::Enabled {
            Ok(None)
        } else {
            Ok(probed)
        }
    }
}

/// Tells whether the way size must be probed before the authority can
/// decide. Where this is `false` the probe's answer is never looked at.
pub fn needs_probe(config: &ColoringConfig) -> (r: bool)
    ensures
        r == config.wants_probe(),
{
    let opt = opt_llc_coloring_mode(config.mode);
    let overridden = opt != LLCColoringMode::Disabled && config.llc_total_size.is_some()
        && config.llc_nr_ways.is_some();
    !overridden && opt == LLCColoringMode::Enabled
}

/// Settles the way size. A supplied geometry wins over the mode and the
/// probe unless coloring is disabled; otherwise only mode `Enabled` turns
/// to the probe's answer `probed`.
pub fn resolve_way_size(config: &ColoringConfig, probed: Option<usize>) -> (r: Result<
    Option<usize>,
    InitError,
>)
    ensures
        r == config.way_size(probed),
{
    let opt = opt_llc_coloring_mode(config.mode);
    if opt != LLCColoringMode::Disabled && config.llc_total_size.is_some()
        && config.llc_nr_ways.is_some() {
        let total: usize = config.llc_total_size.unwrap();
        let ways: usize = config.llc_nr_ways.unwrap();
        if ways == 0 {
            Err(InitError::ZeroWayCount)
        } else {
            Ok(Some(total / ways))
        }
    } else if opt != LLCColoringMode::Enabled {
        Ok(None)
    } else {
        Ok(probed)
    }
}

/// The color assignment that the authority publishes.
#[derive(Debug)]
pub struct ColoringState {
    /// How many colors the cache has: a power of two.
    pub max_colors: usize,
    /// Every color, in numeric order.
    pub all_colors: Vec<usize>,
    /// The colors that the hypervisor draws frames from.
    pub active_colors: Vec<usize>,
}

/// A color assignment as a mathematical value.
pub struct ColoringStateView {
    pub max_colors: usize,
    pub all_colors: Seq<usize>,
    pub active_colors: Seq<usize>,
}

impl View for ColoringState {
    type V = ColoringStateView;

    open spec fn view(&self) -> ColoringStateView {
        ColoringStateView {
            max_colors: self.max_colors,
            all_colors: self.all_colors@,
            active_colors: self.active_colors@,
        }
    }
}

impl ColoringStateView {
    /// What must hold of an assignment before it may be published: the
    /// number of colors is a power of two, the colors are numbered from 0
    /// in order, and the active colors are no more than there are colors
    /// and each one of them.
    pub open spec fn valid(&self) -> bool {
        &&& is_pow2(self.max_colors as int)
        &&& self.all_colors == color_range(self.max_colors as nat)
        &&& active_colors_valid(self.active_colors, self.max_colors)
    }
}

/// The index of the first requested color that does not exist.
pub open spec fn first_out_of_range(colors: Seq<usize>, max_nr_colors: usize) -> int {
    choose|i: int| is_first_out_of_range(colors, max_nr_colors, i)
}

/// The active colors for a cache of `max_nr_colors` colors: the requested
/// colors as they are if they can be used, and without a request the first
/// few of all colors.
pub open spec fn active_colors_of(requested: Option<Seq<usize>>, max_nr_colors: usize) -> Result<
    Seq<usize>,
    InitError,
> {
    match requested {
        None => Ok(
            color_range(max_nr_colors as nat).take(default_color_count(max_nr_colors) as int),
        ),
        Some(colors) => if colors.len() > max_nr_colors {
            Err(
                InitError::TooManyColors {
                    requested: colors.len() as usize,
                    available: max_nr_colors,
                },
            )
        } else if !all_in_range(colors, max_nr_colors) {
            Err(
                InitError::ColorOutOfRange {
                    color: colors[first_out_of_range(colors, max_nr_colors)],
                    max_colors: max_nr_colors,
                },
            )
        } else {
            Ok(colors)
        },
    }
}

/// The color assignment for a way of `way_size` bytes.
pub open spec fn coloring_of(way_size: usize, requested: Option<Seq<usize>>) -> Result<
    ColoringStateView,
    InitError,
> {
    match max_colors_of(way_size) {
        Err(e) => Err(e),
        Ok(max_nr_colors) => match active_colors_of(requested, max_nr_colors) {
            Err(e) => Err(e),
            Ok(active_colors) => Ok(
                ColoringStateView {
                    max_colors: max_nr_colors,
                    all_colors: color_range(max_nr_colors as nat),
                    active_colors,
                },
            ),
        },
    }
}

/// What a configuration and the probe's answer lead to: a fault, no
/// coloring (`Ok(None)`), or the assignment to publish.
pub open spec fn planned_coloring(config: ColoringConfig, probed: Option<usize>) -> Result<
    Option<ColoringStateView>,
    InitError,
> {
    match config.way_size(probed) {
        Err(e) => Err(e),
        Ok(None) => Ok(None),
        Ok(Some(way_size)) => match coloring_of(way_size, config.requested_colors()) {
            Err(e) => Err(e),
            Ok(state) => Ok(Some(state)),
        },
    }
}

/// A way that is a whole number of pages, a power of two of them, has as
/// many colors as pages, and they are numbered from 0 in order.
pub proof fn lemma_color_universe(way_size: usize, requested: Option<Seq<usize>>)
    requires
        is_page_multiple(way_size),
        is_pow2(color_count(way_size) as int),
    ensures
        max_colors_of(way_size) == Ok::<usize, InitError>((way_size / PAGE_SIZE) as usize),
        coloring_of(way_size, requested) is Ok ==> {
            let coloring = coloring_of(way_size, requested)->Ok_0;
            &&& coloring.max_colors == way_size / PAGE_SIZE
            &&& coloring.max_colors * PAGE_SIZE == way_size
            &&& coloring.all_colors.len() == coloring.max_colors
            &&& forall|i: int| 0 <= i < coloring.max_colors ==> coloring.all_colors[i] == i
        },
{
}

/// The number of colors of an assignment is a power of two: a way whose
/// page count is none gets no assignment but a fault.
pub proof fn lemma_max_colors_is_power_of_two(way_size: usize, requested: Option<Seq<usize>>)
    ensures
        coloring_of(way_size, requested) is Ok ==> is_pow2(
            coloring_of(way_size, requested)->Ok_0.max_colors as int,
        ),
        !is_page_multiple(way_size) ==> coloring_of(way_size, requested) == Err::<
            ColoringStateView,
            InitError,
        >(InitError::WaySizeNotPageMultiple { way_size }),
        is_page_multiple(way_size) && !is_pow2(color_count(way_size) as int) ==> coloring_of(
            way_size,
            requested,
        ) == Err::<ColoringStateView, InitError>(InitError::ColorCountNotPowerOfTwo { way_size }),
{
}

/// The active colors of an assignment are colors of the cache: each is
/// less than the number of colors and occurs among all colors. They hold
/// no color twice unless the requested list did.
pub proof fn lemma_active_colors_are_colors(way_size: usize, requested: Option<Seq<usize>>)
    requires
        coloring_of(way_size, requested) is Ok,
    ensures
        ({
            let coloring = coloring_of(way_size, requested)->Ok_0;
            &&& coloring.valid()
            &&& coloring.active_colors.len() <= coloring.max_colors
            &&& forall|i: int|
                0 <= i < coloring.active_colors.len() ==> {
                    &&& #[trigger] coloring.active_colors[i] < coloring.max_colors
                    &&& coloring.all_colors.contains(coloring.active_colors[i])
                }
            &&& (requested is None || requested->Some_0.no_duplicates())
                ==> coloring.active_colors.no_duplicates()
        }),
{
    let coloring = coloring_of(way_size, requested)->Ok_0;
    assert forall|i: int| 0 <= i < coloring.active_colors.len() implies {
        &&& #[trigger] coloring.active_colors[i] < coloring.max_colors
        &&& coloring.all_colors.contains(coloring.active_colors[i])
    } by {
        let c = coloring.active_colors[i];
        assert(c < coloring.max_colors);
        assert(coloring.all_colors[c as int] == c);
    }
}

/// With mode `Disabled` nothing is published, whatever the supplied
/// geometry and the probe say.
pub proof fn lemma_disabled_publishes_nothing(config: ColoringConfig, probed: Option<usize>)
    requires
        mode_of(config.mode) == LLCColoringMode::Disabled,
    ensures
        planned_coloring(config, probed) == Ok::<Option<ColoringStateView>, InitError>(None),
{
}

/// Where the probe is needed and finds nothing, coloring is off and no
/// fault is raised.
pub proof fn lemma_failed_probe_disables(config: ColoringConfig)
    requires
        config.wants_probe(),
    ensures
        planned_coloring(config, None) == Ok::<Option<ColoringStateView>, InitError>(None),
{
}

/// Where the probe is not needed, its answer makes no difference.
pub proof fn lemma_probe_ignored(config: ColoringConfig, probed: Option<usize>, other: Option<usize>)
    requires
        !config.wants_probe(),
    ensures
        planned_coloring(config, probed) == planned_coloring(config, other),
{
}

/// Two indices that both are the first out of range are one index.
proof fn lemma_first_out_of_range_unique(colors: Seq<usize>, max_nr_colors: usize, i: int, j: int)
    requires
        is_first_out_of_range(colors, max_nr_colors, i),
        is_first_out_of_range(colors, max_nr_colors, j),
    ensures
        i == j,
{
    if i < j {
        assert(colors[i] < max_nr_colors);
    } else if j < i {
        assert(colors[j] < max_nr_colors);
    }
}

/// Chooses the active colors: the requested ones after a check, or the
/// default ones.
pub fn resolve_active_colors(
    requested: &Option<Vec<usize>>,
    all_colors: &Vec<usize>,
) -> (r: Result<Vec<usize>, InitError>)
    requires
        all_colors@ == color_range(all_colors.len() as nat),
    ensures
        active_colors_of(colors_view(*requested), all_colors.len()) == match r {
            Ok(active_colors) => Ok::<Seq<usize>, InitError>(active_colors@),
            Err(e) => Err::<Seq<usize>, InitError>(e),
        },
{
    let max_nr_colors: usize = all_colors.len();
    match requested {
        None => Ok(default_active_colors(all_colors)),
        Some(colors) => {
            match check_active_colors(colors, max_nr_colors) {
                Ok(()) => Ok(colors.clone()),
                Err(e) => {
                    proof {
                        if colors.len() <= max_nr_colors {
                            let i = choose|i: int|
                                is_first_out_of_range(colors@, max_nr_colors, i) && e
                                    == (InitError::ColorOutOfRange {
                                    color: colors@[i],
                                    max_colors: max_nr_colors,
                                });
                            lemma_first_out_of_range_unique(
                                colors@,
                                max_nr_colors,
                                i,
                                first_out_of_range(colors@, max_nr_colors),
                            );
                        }
                    }
                    Err(e)
                },
            }
        },
    }
}

/// Works out the color assignment for a way of `way_size` bytes and the
/// requested active colors, refusing what must not be published.
pub fn compute_coloring(way_size: usize, requested: &Option<Vec<usize>>) -> (r: Result<
    ColoringState,
    InitError,
>)
    ensures
        coloring_of(way_size, colors_view(*requested)) == match r {
            Ok(coloring) => Ok::<ColoringStateView, InitError>(coloring@),
            Err(e) => Err::<ColoringStateView, InitError>(e),
        },
{
    let max_nr_colors: usize = match derive_max_colors(way_size) {
        Ok(n) => n,
        Err(e) => { return Err(e); },
    };
    let all_colors = build_all_colors(max_nr_colors);
    match resolve_active_colors(requested, &all_colors) {
        Ok(active_colors) => Ok(ColoringState { max_colors: max_nr_colors, all_colors, active_colors }),
        Err(e) => Err(e),
    }
}

/// How far the authority has come. Every state but the first is final.
#[derive(Clone, Copy, Debug, PartialEq, Eq, Structural)]
pub enum InitState {
    /// The initializer has not run, or it found a fault and published nothing.
    NotInitialized,
    /// Coloring is off: it was not asked for, or the cache geometry could
    /// not be found.
    Disabled,
    /// The colors are published; the hardware partitioning extension has
    /// not been looked at yet.
    EnabledWithoutExtensionHint,
    /// The colors are published and the extension has been looked at.
    EnabledWithExtensionHint,
}

impl InitState {
    /// Whether colors are published in this state.
    pub open spec fn enabled(&self) -> bool {
        *self == InitState::EnabledWithoutExtensionHint || *self
            == InitState::EnabledWithExtensionHint
    }
}

/// The coloring authority. It holds the published color assignment in
/// write-once cells, together with the state of its initialization.
pub struct LlcColoring {
    state: InitState,
    default_colors: spin::Once<Vec<usize>>,
    hvisor_color: spin::Once<Vec<usize>>,
}

impl LlcColoring {
    /// The state of the initialization.
    pub closed spec fn state(&self) -> InitState {
        self.state
    }

    /// The published color assignment, if there is one.
    pub closed spec fn published(&self) -> Option<ColoringStateView> {
        match (cell_value(self.default_colors), cell_value(self.hvisor_color)) {
            (Some(all_colors), Some(active_colors)) => Some(
                ColoringStateView {
                    max_colors: all_colors.len() as usize,
                    all_colors,
                    active_colors,
                },
            ),
            _ => None,
        }
    }

    /// Colors are published exactly in the two enabled states, and what is
    /// published may be handed to the allocator. Every authority that
    /// executable code can hold satisfies this.
    #[verifier::type_invariant]
    pub closed spec fn wf(&self) -> bool {
        if self.state.enabled() {
            &&& cell_value(self.default_colors) is Some
            &&& cell_value(self.hvisor_color) is Some
            &&& cell_value(self.default_colors)->Some_0.len() <= usize::MAX
            &&& self.published()->Some_0.valid()
        } else {
            &&& cell_value(self.default_colors) is None
            &&& cell_value(self.hvisor_color) is None
        }
    }

    /// An authority that has not been initialized and has published nothing.
    pub fn new() -> (authority: Self)
        ensures
            authority.wf(),
            authority.state() == InitState::NotInitialized,
            authority.published() is None,
    {
        LlcColoring {
            state: InitState::NotInitialized,
            default_colors: cell_new(),
            hvisor_color: cell_new(),
        }
    }

    /// Colors are published exactly in the two enabled states, and what is
    /// published is fit for the allocator: a power-of-two number of colors,
    /// numbered from 0 in order, and active colors that all exist.
    pub proof fn lemma_published_is_valid(&self)
        requires
            self.wf(),
        ensures
            self.published() is Some <==> self.state().enabled(),
            self.published() is Some ==> self.published()->Some_0.valid(),
    {
    }

    /// A published number of colors is at least one.
    pub proof fn lemma_max_colors_positive(&self)
        requires
            self.wf(),
        ensures
            self.published() is Some ==> self.published()->Some_0.max_colors > 0,
    {
        reveal(is_pow2);
    }

    /// The state of the initialization.
    pub fn init_state(&self) -> (state: InitState)
        ensures
            state == self.state(),
    {
        self.state
    }

    /// Whether coloring is on.
    pub fn is_enabled(&self) -> (enabled: bool)
        ensures
            enabled == self.state().enabled(),
            enabled == self.published() is Some,
    {
        proof {
            use_type_invariant(self);
        }
        match self.state {
            InitState::EnabledWithoutExtensionHint | InitState::EnabledWithExtensionHint => true,
            _ => false,
        }
    }

    /// The number of colors, once published.
    pub fn max_colors(&self) -> (max_colors: Option<usize>)
        ensures
            max_colors == match self.published() {
                Some(state) => Some(state.max_colors),
                None => None,
            },
    {
        proof {
            use_type_invariant(self);
        }
        match cell_get(&self.default_colors) {
            Some(all_colors) => Some(all_colors.len()),
            None => None,
        }
    }

    /// Every color in numeric order, once published.
    pub fn all_colors(&self) -> (all_colors: Option<&Vec<usize>>)
        ensures
            all_colors is Some == self.published() is Some,
            all_colors is Some ==> all_colors->Some_0@ == self.published()->Some_0.all_colors,
    {
        proof {
            use_type_invariant(self);
        }
        cell_get(&self.default_colors)
    }

    /// The colors that the hypervisor draws frames from, once published.
    pub fn active_colors(&self) -> (active_colors: Option<&Vec<usize>>)
        ensures
            active_colors is Some == self.published() is Some,
            active_colors is Some ==> active_colors->Some_0@
                == self.published()->Some_0.active_colors,
    {
        proof {
            use_type_invariant(self);
        }
        cell_get(&self.hvisor_color)
    }
}

/// Fills the two cells and moves to the first enabled state.
fn publish(
    state: &mut InitState,
    default_colors: &mut spin::Once<Vec<usize>>,
    hvisor_color: &mut spin::Once<Vec<usize>>,
    coloring: ColoringState,
)
    requires
        cell_value(*old(default_colors)) is None,
        cell_value(*old(hvisor_color)) is None,
    ensures
        *final(state) == InitState::EnabledWithoutExtensionHint,
        cell_value(*final(default_colors)) == Some(coloring@.all_colors),
        cell_value(*final(hvisor_color)) == Some(coloring@.active_colors),
    no_unwind
{
    cell_call_once(default_colors, coloring.all_colors);
    cell_call_once(hvisor_color, coloring.active_colors);
    *state = InitState::EnabledWithoutExtensionHint;
}

/// Initializes the authority from the boot configuration and the probe's
/// answer `probed` (looked at only where `needs_probe` says so).
///
/// An authority that has left `NotInitialized` is not touched again: the
/// call answers with the state it is in. Otherwise the configuration
/// decides. A fault is returned and nothing is published, so that the boot
/// can be stopped. Where coloring is off the authority ends in `Disabled`,
/// again with nothing published. Else the color assignment is published
/// and the authority waits for the extension hint.
pub fn llc_coloring_init(
    authority: &mut LlcColoring,
    config: &ColoringConfig,
    probed: Option<usize>,
) -> (r: Result<InitState, InitError>)
    ensures
        final(authority).wf(),
        old(authority).state() != InitState::NotInitialized ==> {
            &&& r == Ok::<InitState, InitError>(old(authority).state())
            &&& final(authority).state() == old(authority).state()
            &&& final(authority).published() == old(authority).published()
        },
        old(authority).state() == InitState::NotInitialized ==> match planned_coloring(
            *config,
            probed,
        ) {
            Err(e) => {
                &&& r == Err::<InitState, InitError>(e)
                &&& final(authority).state() == InitState::NotInitialized
                &&& final(authority).published() is None
            },
            Ok(None) => {
                &&& r == Ok::<InitState, InitError>(InitState::Disabled)
                &&& final(authority).state() == InitState::Disabled
                &&& final(authority).published() is None
            },
            Ok(Some(coloring)) => {
                &&& r == Ok::<InitState, InitError>(InitState::EnabledWithoutExtensionHint)
                &&& final(authority).state() == InitState::EnabledWithoutExtensionHint
                &&& final(authority).published() == Some(coloring)
            },
        },
{
    proof {
        use_type_invariant(&*authority);
    }
    if authority.state != InitState::NotInitialized {
        return Ok(authority.state);
    }
    let way_size: usize = match resolve_way_size(config, probed) {
        Err(e) => { return Err(e); },
        Ok(None) => {
            authority.state = InitState::Disabled;
            return Ok(InitState::Disabled);
        },
        Ok(Some(way_size)) => way_size,
    };
    let coloring = match compute_coloring(way_size, &config.hvisor_color) {
        Err(e) => { return Err(e); },
        Ok(coloring) => coloring,
    };
    publish(
        &mut authority.state,
        &mut authority.default_colors,
        &mut authority.hvisor_color,
        coloring,
    );
    Ok(InitState::EnabledWithoutExtensionHint)
}

/// Records that the hardware partitioning extension has been looked at.
/// Only an authority that is waiting for this changes state; the published
/// colors stay as they are.
pub fn extension_hint_done(authority: &mut LlcColoring) -> (state: InitState)
    ensures
        final(authority).wf(),
        state == final(authority).state(),
        state == (if old(authority).state() == InitState::EnabledWithoutExtensionHint {
            InitState::EnabledWithExtensionHint
        } else {
            old(authority).state()
        }),
        final(authority).published() == old(authority).published(),
{
    proof {
        use_type_invariant(&*authority);
    }
    if authority.state == InitState::EnabledWithoutExtensionHint {
        authority.state = InitState::EnabledWithExtensionHint;
    }
    authority.state
}

} // verus!
