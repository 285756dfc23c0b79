//! The multi-resolution progressive blur compositor, as pure data: tunable
//! parameters that are clamped at every mutation, the chain of render-target
//! resolutions, and the per-frame pass list.
//!
//! Two sequencing strategies are provided for the same compositor role: the
//! dual-filter chain ([`kawase_plan`]), one pass per level with a fixed
//! multi-tap kernel, and the two-axis ping-pong chain ([`ping_pong_plan`]),
//! two sub-passes per logical level through a scratch target.  A plan is a
//! list of passes, each reading exactly one target and writing exactly one
//! target; list order is execution order, and [`lemma_kawase_plan_ordered`]
//! proves every target is written before it is read.

use vstd::prelude::*;

verus! {

/// Number of levels in the render-target chain.
pub const CHAIN_LEN: usize = 6;

/// Resolution divisor of chain level `k`: 2, 4, 8, 16, 32, 64.
pub open spec fn spec_resdiv(k: int) -> int {
    if k == 0 {
        2
    } else if k == 1 {
        4
    } else if k == 2 {
        8
    } else if k == 3 {
        16
    } else if k == 4 {
        32
    } else {
        64
    }
}

pub fn resdiv(k: usize) -> (d: u32)
    requires
        k < CHAIN_LEN,
    ensures
        d as int == spec_resdiv(k as int),
{
    if k == 0 {
        2
    } else if k == 1 {
        4
    } else if k == 2 {
        8
    } else if k == 3 {
        16
    } else if k == 4 {
        32
    } else {
        64
    }
}

/// The divisors grow strictly along the chain, so the target resolutions
/// strictly decrease.
pub proof fn lemma_resdivs_increasing(k1: int, k2: int)
    requires
        0 <= k1 < k2 < CHAIN_LEN,
    ensures
        spec_resdiv(k1) < spec_resdiv(k2),
{
}

/// The sizes of the whole render-target chain for a base image size:
/// level `k` has resolution `base / resdiv(k)`, per axis.
pub fn chain_sizes(base_w: u32, base_h: u32) -> (r: Vec<(u32, u32)>)
    ensures
        r@.len() == CHAIN_LEN,
        forall|k: int|
            0 <= k < CHAIN_LEN ==> (#[trigger] r@[k]).0 as int == base_w as int / spec_resdiv(k)
                && r@[k].1 as int == base_h as int / spec_resdiv(k),
{
    let mut r: Vec<(u32, u32)> = Vec::new();
    let mut k: usize = 0;
    while k < CHAIN_LEN
        invariant
            k <= CHAIN_LEN,
            r@.len() == k,
            forall|j: int|
                0 <= j < k ==> (#[trigger] r@[j]).0 as int == base_w as int / spec_resdiv(j)
                    && r@[j].1 as int == base_h as int / spec_resdiv(j),
        decreases CHAIN_LEN - k,
    {
        let d = resdiv(k);
        r.push((base_w / d, base_h / d));
        k = k + 1;
    }
    r
}

/// A key-driven adjustment of the blur configuration.
#[derive(Clone, Copy, Debug, PartialEq, Eq, Structural)]
pub enum BlurKey {
    RadiusUp,
    RadiusDown,
    LayersUp,
    LayersDown,
    KernelUp,
    KernelDown,
    ToggleDither,
    ToggleDiagonal,
    Other,
}

/// Parameters of the dual-filter compositor.  The blur radius is kept in
/// tenths of a texel.
#[derive(Clone, Copy, Debug, PartialEq, Eq, Structural)]
pub struct KawaseParams {
    pub radius_tenths: u32,
    pub layers: usize,
    pub dithered: bool,
}

impl KawaseParams {
    /// Radius within `[0.2, 32.0]` texels (the deepest divisor halved),
    /// layer count within the chain (at most 5, so a deeper level always
    /// exists to downsample into).
    pub open spec fn wf(self) -> bool {
        &&& 2 <= self.radius_tenths <= 320
        &&& self.layers <= 5
    }

    pub fn new() -> (p: KawaseParams)
        ensures
            p.wf(),
            p.radius_tenths == 10,
            p.layers == 1,
            !p.dithered,
    {
        KawaseParams { radius_tenths: 10, layers: 1, dithered: false }
    }
}

/// The exact effect of one key on the dual-filter parameters: each bound is
/// enforced at the mutation itself.
pub open spec fn spec_kawase_on_key(p: KawaseParams, key: BlurKey) -> KawaseParams {
    match key {
        BlurKey::RadiusUp => KawaseParams {
            radius_tenths: if p.radius_tenths >= 320 {
                320
            } else {
                (p.radius_tenths + 1) as u32
            },
            ..p
        },
        BlurKey::RadiusDown => KawaseParams {
            radius_tenths: if p.radius_tenths <= 2 {
                2
            } else {
                (p.radius_tenths - 1) as u32
            },
            ..p
        },
        BlurKey::LayersUp => KawaseParams {
            layers: if p.layers >= 5 {
                5
            } else {
                (p.layers + 1) as usize
            },
            ..p
        },
        BlurKey::LayersDown => KawaseParams {
            layers: if p.layers == 0 {
                0
            } else {
                (p.layers - 1) as usize
            },
            ..p
        },
        BlurKey::ToggleDither => KawaseParams { dithered: !p.dithered, ..p },
        _ => p,
    }
}

impl KawaseParams {
    /// Apply one key-driven adjustment, clamped to the valid ranges.
    pub fn on_key(&mut self, key: BlurKey)
        requires
            old(self).wf(),
        ensures
            final(self).wf(),
            *final(self) == spec_kawase_on_key(*old(self), key),
    {
        match key {
            BlurKey::RadiusUp => {
                if self.radius_tenths >= 320 {
                    self.radius_tenths = 320;
                } else {
                    self.radius_tenths = self.radius_tenths + 1;
                }
            },
            BlurKey::RadiusDown => {
                if self.radius_tenths <= 2 {
                    self.radius_tenths = 2;
                } else {
                    self.radius_tenths = self.radius_tenths - 1;
                }
            },
            BlurKey::LayersUp => {
                if self.layers >= 5 {
                    self.layers = 5;
                } else {
                    self.layers = self.layers + 1;
                }
            },
            BlurKey::LayersDown => {
                if self.layers == 0 {
                    self.layers = 0;
                } else {
                    self.layers = self.layers - 1;
                }
            },
            BlurKey::ToggleDither => {
                self.dithered = !self.dithered;
            },
            _ => {},
        }
    }
}

/// Parameters of the two-axis ping-pong compositor.
#[derive(Clone, Copy, Debug, PartialEq, Eq, Structural)]
pub struct PingPongParams {
    pub kernel: i32,
    pub radius_tenths: u32,
    pub layers: usize,
    pub diagonal: bool,
    pub dithered: bool,
}

impl PingPongParams {
    pub open spec fn wf(self) -> bool {
        &&& 0 <= self.kernel <= 64
        &&& self.radius_tenths <= 320
        &&& self.layers <= CHAIN_LEN
    }

    pub fn new() -> (p: PingPongParams)
        ensures
            p.wf(),
            p.kernel == 5,
            p.radius_tenths == 20,
            p.layers == 4,
            !p.diagonal,
            !p.dithered,
    {
        PingPongParams { kernel: 5, radius_tenths: 20, layers: 4, diagonal: false, dithered: false }
    }
}

/// The exact effect of one key on the ping-pong parameters.
pub open spec fn spec_ping_pong_on_key(p: PingPongParams, key: BlurKey) -> PingPongParams {
    match key {
        BlurKey::KernelUp => PingPongParams {
            kernel: if p.kernel >= 64 {
                64
            } else {
                (p.kernel + 1) as i32
            },
            ..p
        },
        BlurKey::KernelDown => PingPongParams {
            kernel: if p.kernel <= 0 {
                0
            } else {
                (p.kernel - 1) as i32
            },
            ..p
        },
        BlurKey::RadiusUp => PingPongParams {
            radius_tenths: if p.radius_tenths >= 320 {
                320
            } else {
                (p.radius_tenths + 1) as u32
            },
            ..p
        },
        BlurKey::RadiusDown => PingPongParams {
            radius_tenths: if p.radius_tenths == 0 {
                0
            } else {
                (p.radius_tenths - 1) as u32
            },
            ..p
        },
        BlurKey::LayersUp => PingPongParams {
            layers: if p.layers >= CHAIN_LEN {
                CHAIN_LEN
            } else {
                (p.layers + 1) as usize
            },
            ..p
        },
        BlurKey::LayersDown => PingPongParams {
            layers: if p.layers == 0 {
                0
            } else {
                (p.layers - 1) as usize
            },
            ..p
        },
        BlurKey::ToggleDither => PingPongParams { dithered: !p.dithered, ..p },
        BlurKey::ToggleDiagonal => PingPongParams { diagonal: !p.diagonal, ..p },
        _ => p,
    }
}

impl PingPongParams {
    /// Apply one key-driven adjustment, clamped to the valid ranges.
    pub fn on_key(&mut self, key: BlurKey)
        requires
            old(self).wf(),
        ensures
            final(self).wf(),
            *final(self) == spec_ping_pong_on_key(*old(self), key),
    {
        match key {
            BlurKey::KernelUp => {
                if self.kernel >= 64 {
                    self.kernel = 64;
                } else {
                    self.kernel = self.kernel + 1;
                }
            },
            BlurKey::KernelDown => {
                if self.kernel <= 0 {
                    self.kernel = 0;
                } else {
                    self.kernel = self.kernel - 1;
                }
            },
            BlurKey::RadiusUp => {
                if self.radius_tenths >= 320 {
                    self.radius_tenths = 320;
                } else {
                    self.radius_tenths = self.radius_tenths + 1;
                }
            },
            BlurKey::RadiusDown => {
                if self.radius_tenths == 0 {
                    self.radius_tenths = 0;
                } else {
                    self.radius_tenths = self.radius_tenths - 1;
                }
            },
            BlurKey::LayersUp => {
                if self.layers >= CHAIN_LEN {
                    self.layers = CHAIN_LEN;
                } else {
                    self.layers = self.layers + 1;
                }
            },
            BlurKey::LayersDown => {
                if self.layers == 0 {
                    self.layers = 0;
                } else {
                    self.layers = self.layers - 1;
                }
            },
            BlurKey::ToggleDither => {
                self.dithered = !self.dithered;
            },
            BlurKey::ToggleDiagonal => {
                self.diagonal = !self.diagonal;
            },
            _ => {},
        }
    }
}

// ---------------------------------------------------------------------------
// Pass lists.
// ---------------------------------------------------------------------------

/// What a pass reads.
#[derive(Clone, Copy, Debug, PartialEq, Eq, Structural)]
pub enum PassSource {
    /// The original (unblurred) source image.
    Original,
    /// The color attachment of chain level `k`.
    Level(usize),
    /// The scratch (ping-pong) attachment of chain level `k`.
    Scratch(usize),
}

/// What a pass writes.
#[derive(Clone, Copy, Debug, PartialEq, Eq, Structural)]
pub enum PassDest {
    Level(usize),
    Scratch(usize),
    /// The screen target.
    Screen,
}

#[derive(Clone, Copy, Debug, PartialEq, Eq, Structural)]
pub enum PassKind {
    /// Draw the source image into the finest chain level.
    Seed,
    Down,
    Up,
    /// Draw the final image to the screen.
    Blit,
}

/// The blur direction of a two-axis sub-pass.
#[derive(Clone, Copy, Debug, PartialEq, Eq, Structural)]
pub enum BlurAxis {
    Right,
    Up,
    DiagRight,
    DiagLeft,
}

/// One pass of the dual-filter plan.  The tap distance is the exact
/// fraction `dist_num / dist_den` in texels.
#[derive(Clone, Copy, Debug, PartialEq, Eq, Structural)]
pub struct BlurPass {
    pub kind: PassKind,
    pub source: PassSource,
    pub dest: PassDest,
    pub upsample: bool,
    pub dist_num: u32,
    pub dist_den: u32,
    /// Whether the pass draws with the dithering shader; set only on the
    /// final blit, from the parameters' dither flag.
    pub dithered: bool,
}

pub open spec fn count_kind(s: Seq<BlurPass>, k: PassKind) -> int
    decreases s.len(),
{
    if s.len() == 0 {
        0
    } else {
        count_kind(s.drop_last(), k) + if s.last().kind == k {
            1int
        } else {
            0int
        }
    }
}

proof fn lemma_count_kind_push(s: Seq<BlurPass>, p: BlurPass, k: PassKind)
    ensures
        count_kind(s.push(p), k) == count_kind(s, k) + if p.kind == k {
            1int
        } else {
            0int
        },
{
    assert(s.push(p).drop_last() =~= s);
}

/// The shape of the dual-filter plan for the given parameters.
pub open spec fn kawase_plan_shape(p: KawaseParams, s: Seq<BlurPass>) -> bool {
    let layers = p.layers as int;
    if layers == 0 {
        s.len() == 1 && s[0] == (BlurPass {
            kind: PassKind::Blit,
            source: PassSource::Original,
            dest: PassDest::Screen,
            upsample: false,
            dist_num: 0,
            dist_den: 1,
            dithered: p.dithered,
        })
    } else {
        &&& s.len() == 2 * layers + 2
        &&& s[0] == (BlurPass {
            kind: PassKind::Seed,
            source: PassSource::Original,
            dest: PassDest::Level(0),
            upsample: false,
            dist_num: 0,
            dist_den: 1,
            dithered: false,
        })
        &&& forall|k: int|
            1 <= k <= layers ==> s[k] == (BlurPass {
                kind: PassKind::Down,
                source: PassSource::Level((k - 1) as usize),
                dest: PassDest::Level(k as usize),
                upsample: false,
                dist_num: p.radius_tenths,
                dist_den: 10,
                    dithered: false,
            })
        &&& forall|j: int|
            #![trigger s[layers + 1 + j]]
            0 <= j < layers ==> s[layers + 1 + j] == (BlurPass {
                kind: PassKind::Up,
                source: PassSource::Level((layers - j) as usize),
                dest: PassDest::Level((layers - j - 1) as usize),
                upsample: true,
                dist_num: p.radius_tenths,
                dist_den: 20,
                    dithered: false,
            })
        &&& s[2 * layers + 1] == (BlurPass {
            kind: PassKind::Blit,
            source: PassSource::Level(0),
            dest: PassDest::Screen,
            upsample: false,
            dist_num: 0,
            dist_den: 1,
            dithered: p.dithered,
        })
    }
}

/// Build the dual-filter pass list: seed the finest level, downsample
/// through the chain to the configured depth, upsample back in place, then
/// blit level 0 to the screen — or, with zero layers, blit the original
/// image directly.
///
/// Blur chain monotonicity: the plan holds exactly `layers` downsample
/// passes and exactly `layers` upsample passes, and none of either when the
/// layer count is zero.
pub fn kawase_plan(p: &KawaseParams) -> (r: Vec<BlurPass>)
    requires
        p.wf(),
    ensures
        kawase_plan_shape(*p, r@),
        count_kind(r@, PassKind::Down) == p.layers as int,
        count_kind(r@, PassKind::Up) == p.layers as int,
{
    let mut r: Vec<BlurPass> = Vec::new();
    proof {
        assert(count_kind(r@, PassKind::Down) == 0);
        assert(count_kind(r@, PassKind::Up) == 0);
    }
    if p.layers == 0 {
        let blit = BlurPass {
            kind: PassKind::Blit,
            source: PassSource::Original,
            dest: PassDest::Screen,
            upsample: false,
            dist_num: 0,
            dist_den: 1,
            dithered: p.dithered,
        };
        proof {
            lemma_count_kind_push(r@, blit, PassKind::Down);
            lemma_count_kind_push(r@, blit, PassKind::Up);
        }
        r.push(blit);
        return r;
    }
    let seed = BlurPass {
        kind: PassKind::Seed,
        source: PassSource::Original,
        dest: PassDest::Level(0),
        upsample: false,
        dist_num: 0,
        dist_den: 1,
            dithered: false,
    };
    proof {
        lemma_count_kind_push(r@, seed, PassKind::Down);
        lemma_count_kind_push(r@, seed, PassKind::Up);
    }
    r.push(seed);
    let mut k: usize = 1;
    while k <= p.layers
        invariant
            p.wf(),
            1 <= p.layers,
            1 <= k <= p.layers + 1,
            r@.len() == k,
            count_kind(r@, PassKind::Down) == k - 1,
            count_kind(r@, PassKind::Up) == 0,
            r@[0] == (BlurPass {
                kind: PassKind::Seed,
                source: PassSource::Original,
                dest: PassDest::Level(0),
                upsample: false,
                dist_num: 0,
                dist_den: 1,
            dithered: false,
            }),
            forall|kk: int|
                1 <= kk < k ==> r@[kk] == (BlurPass {
                    kind: PassKind::Down,
                    source: PassSource::Level((kk - 1) as usize),
                    dest: PassDest::Level(kk as usize),
                    upsample: false,
                    dist_num: p.radius_tenths,
                    dist_den: 10,
                    dithered: false,
                }),
        decreases p.layers + 1 - k,
    {
        let pass = BlurPass {
            kind: PassKind::Down,
            source: PassSource::Level(k - 1),
            dest: PassDest::Level(k),
            upsample: false,
            dist_num: p.radius_tenths,
            dist_den: 10,
                    dithered: false,
        };
        proof {
            lemma_count_kind_push(r@, pass, PassKind::Down);
            lemma_count_kind_push(r@, pass, PassKind::Up);
        }
        r.push(pass);
        k = k + 1;
    }
    let mut j: usize = 0;
    while j < p.layers
        invariant
            p.wf(),
            1 <= p.layers,
            0 <= j <= p.layers,
            r@.len() == p.layers + 1 + j,
            count_kind(r@, PassKind::Down) == p.layers as int,
            count_kind(r@, PassKind::Up) == j,
            r@[0] == (BlurPass {
                kind: PassKind::Seed,
                source: PassSource::Original,
                dest: PassDest::Level(0),
                upsample: false,
                dist_num: 0,
                dist_den: 1,
            dithered: false,
            }),
            forall|kk: int|
                1 <= kk <= p.layers ==> r@[kk] == (BlurPass {
                    kind: PassKind::Down,
                    source: PassSource::Level((kk - 1) as usize),
                    dest: PassDest::Level(kk as usize),
                    upsample: false,
                    dist_num: p.radius_tenths,
                    dist_den: 10,
                    dithered: false,
                }),
            forall|jj: int|
                #![trigger r@[p.layers + 1 + jj]]
                0 <= jj < j ==> r@[p.layers + 1 + jj] == (BlurPass {
                    kind: PassKind::Up,
                    source: PassSource::Level((p.layers - jj) as usize),
                    dest: PassDest::Level((p.layers - jj - 1) as usize),
                    upsample: true,
                    dist_num: p.radius_tenths,
                    dist_den: 20,
                    dithered: false,
                }),
        decreases p.layers - j,
    {
        let pass = BlurPass {
            kind: PassKind::Up,
            source: PassSource::Level(p.layers - j),
            dest: PassDest::Level(p.layers - j - 1),
            upsample: true,
            dist_num: p.radius_tenths,
            dist_den: 20,
                    dithered: false,
        };
        proof {
            lemma_count_kind_push(r@, pass, PassKind::Down);
            lemma_count_kind_push(r@, pass, PassKind::Up);
        }
        r.push(pass);
        j = j + 1;
    }
    let blit = BlurPass {
        kind: PassKind::Blit,
        source: PassSource::Level(0),
        dest: PassDest::Screen,
        upsample: false,
        dist_num: 0,
        dist_den: 1,
            dithered: p.dithered,
    };
    proof {
        lemma_count_kind_push(r@, blit, PassKind::Down);
        lemma_count_kind_push(r@, blit, PassKind::Up);
    }
    r.push(blit);
    r
}

/// Every pass reads only the original source image or a target that an
/// earlier pass of the list has already written.
pub open spec fn write_before_read(s: Seq<BlurPass>) -> bool {
    forall|j: int| #![trigger s[j]] 0 <= j < s.len() ==> reads_written(s, j)
}

/// Pass `j` of the list reads the original image or a target some earlier
/// pass wrote.
pub open spec fn reads_written(s: Seq<BlurPass>, j: int) -> bool {
    match s[j].source {
        PassSource::Original => true,
        PassSource::Level(l) => exists|j2: int|
            0 <= j2 < j && (#[trigger] s[j2]).dest == PassDest::Level(l),
        PassSource::Scratch(l) => exists|j2: int|
            0 <= j2 < j && (#[trigger] s[j2]).dest == PassDest::Scratch(l),
    }
}

proof fn lemma_reads_written_witness(s: Seq<BlurPass>, j: int, j2: int)
    requires
        0 <= j2 < j < s.len(),
        s[j].source matches PassSource::Level(l) && s[j2].dest == PassDest::Level(l),
    ensures
        reads_written(s, j),
{
}

/// The dual-filter plan is a directed acyclic pass list: list order alone
/// guarantees that every target is fully written before any pass reads it.
pub proof fn lemma_kawase_plan_ordered(p: KawaseParams, s: Seq<BlurPass>)
    requires
        p.wf(),
        kawase_plan_shape(p, s),
    ensures
        write_before_read(s),
{
    let layers = p.layers as int;
    if layers == 0 {
        assert(reads_written(s, 0));
        return ;
    }
    assert forall|j: int| #![trigger s[j]] 0 <= j < s.len() implies reads_written(s, j) by {
        if j == 0 {
            assert(s[0].source == PassSource::Original);
        } else if 1 <= j <= layers {
            // downsample from the level the previous pass wrote
            assert(s[j - 1].dest == PassDest::Level((j - 1) as usize));
            lemma_reads_written_witness(s, j, j - 1);
        } else if layers + 1 <= j <= 2 * layers {
            let jj = j - layers - 1;
            assert(s[layers + 1 + jj].kind == PassKind::Up);
            assert(s[j].source == PassSource::Level((layers - jj) as usize));
            if jj == 0 {
                // the deepest level was written by the last downsample
                assert(s[layers].dest == PassDest::Level(layers as usize));
                lemma_reads_written_witness(s, j, layers);
            } else {
                // written by the previous upsample
                assert(s[layers + 1 + (jj - 1)].dest == PassDest::Level(
                    (layers - (jj - 1) - 1) as usize,
                ));
                lemma_reads_written_witness(s, j, layers + 1 + (jj - 1));
            }
        } else {
            // the final blit reads level 0, written by the final upsample
            assert(j == 2 * layers + 1);
            assert(s[layers + 1 + (layers - 1)].dest == PassDest::Level(
                (layers - (layers - 1) - 1) as usize,
            ));
            lemma_reads_written_witness(s, j, layers + 1 + (layers - 1));
        }
    }
}

/// One sub-pass of the two-axis ping-pong plan.
#[derive(Clone, Copy, Debug, PartialEq, Eq, Structural)]
pub struct PingPass {
    pub kind: PassKind,
    pub source: PassSource,
    pub dest: PassDest,
    pub axis: BlurAxis,
    pub kernel: i32,
    pub radius_tenths: u32,
    /// Whether the pass draws with the dithering shader; set only on the
    /// final blit, from the parameters' dither flag.
    pub dithered: bool,
}

pub open spec fn count_ping_kind(s: Seq<PingPass>, k: PassKind) -> int
    decreases s.len(),
{
    if s.len() == 0 {
        0
    } else {
        count_ping_kind(s.drop_last(), k) + if s.last().kind == k {
            1int
        } else {
            0int
        }
    }
}

proof fn lemma_count_ping_kind_push(s: Seq<PingPass>, p: PingPass, k: PassKind)
    ensures
        count_ping_kind(s.push(p), k) == count_ping_kind(s, k) + if p.kind == k {
            1int
        } else {
            0int
        },
{
    assert(s.push(p).drop_last() =~= s);
}

/// The chain level the ping-pong plan reads from when it processes logical
/// level `fbi` on the way down.
pub open spec fn spec_ping_down_src(fbi: int) -> int {
    if fbi == 0 {
        0
    } else {
        fbi - 1
    }
}

/// The X-direction sub-pass for logical level `fbi`, reading `src`.
pub open spec fn spec_ping_x_pass(p: PingPongParams, src: PassSource, fbi: int, kind: PassKind) -> PingPass {
    PingPass {
        kind: kind,
        source: src,
        dest: PassDest::Scratch(fbi as usize),
        axis: if p.diagonal {
            BlurAxis::DiagRight
        } else {
            BlurAxis::Right
        },
        kernel: p.kernel,
        radius_tenths: p.radius_tenths,
        dithered: false,
    }
}

/// The Y-direction sub-pass for logical level `fbi` (the axis a quarter
/// turn further).
pub open spec fn spec_ping_y_pass(p: PingPongParams, fbi: int, kind: PassKind) -> PingPass {
    PingPass {
        kind: kind,
        source: PassSource::Scratch(fbi as usize),
        dest: PassDest::Level(fbi as usize),
        axis: if p.diagonal {
            BlurAxis::DiagLeft
        } else {
            BlurAxis::Up
        },
        kernel: p.kernel,
        radius_tenths: p.radius_tenths,
        dithered: false,
    }
}

/// Build the two-axis ping-pong pass list: each logical level is blurred
/// along one axis into its scratch target and back along the perpendicular
/// axis into its composite target; the chain is walked down through the
/// configured layers and back up to level 0, which is blitted to the
/// screen.  With zero layers the original image is blitted directly.
///
/// The plan holds exactly `2·layers` downsample sub-passes (two per logical
/// level) and `2·(layers - 1)` upsample sub-passes, and none of either when
/// the layer count is zero.
pub fn ping_pong_plan(p: &PingPongParams) -> (r: Vec<PingPass>)
    requires
        p.wf(),
    ensures
        count_ping_kind(r@, PassKind::Down) == 2 * p.layers as int,
        count_ping_kind(r@, PassKind::Up) == if p.layers == 0 {
            0int
        } else {
            2 * (p.layers - 1) as int
        },
        p.layers == 0 ==> r@.len() == 1,
        p.layers >= 1 ==> r@.len() == 4 * p.layers as int,
        r@.len() >= 1 && r@[r@.len() - 1].kind == PassKind::Blit && r@[r@.len() - 1].dest
            == PassDest::Screen && r@[r@.len() - 1].dithered == p.dithered,
        p.layers == 0 ==> r@[r@.len() - 1].source == PassSource::Original,
        p.layers >= 1 ==> r@[r@.len() - 1].source == PassSource::Level(0) && r@[0] == (PingPass {
            kind: PassKind::Seed,
            source: PassSource::Original,
            dest: PassDest::Level(0),
            axis: BlurAxis::Right,
            kernel: p.kernel,
            radius_tenths: p.radius_tenths,
            dithered: false,
        }),
        p.layers >= 1 ==> forall|fbi: int|
            #![trigger r@[1 + 2 * fbi]]
            0 <= fbi < p.layers ==> r@[1 + 2 * fbi] == spec_ping_x_pass(
                *p,
                PassSource::Level(spec_ping_down_src(fbi) as usize),
                fbi,
                PassKind::Down,
            ) && r@[2 + 2 * fbi] == spec_ping_y_pass(*p, fbi, PassKind::Down),
        p.layers >= 1 ==> forall|jj: int|
            #![trigger r@[1 + 2 * p.layers + 2 * jj]]
            0 <= jj < p.layers - 1 ==> r@[1 + 2 * p.layers + 2 * jj] == spec_ping_x_pass(
                *p,
                PassSource::Level((p.layers - 1 - jj) as usize),
                p.layers - 2 - jj,
                PassKind::Up,
            ) && r@[2 + 2 * p.layers + 2 * jj] == spec_ping_y_pass(
                *p,
                p.layers - 2 - jj,
                PassKind::Up,
            ),
{
    let mut r: Vec<PingPass> = Vec::new();
    if p.layers == 0 {
        let blit = PingPass {
            kind: PassKind::Blit,
            source: PassSource::Original,
            dest: PassDest::Screen,
            axis: BlurAxis::Right,
            kernel: p.kernel,
            radius_tenths: p.radius_tenths,
            dithered: p.dithered,
        };
        proof {
            lemma_count_ping_kind_push(r@, blit, PassKind::Down);
            lemma_count_ping_kind_push(r@, blit, PassKind::Up);
        }
        r.push(blit);
        return r;
    }
    let seed = PingPass {
        kind: PassKind::Seed,
        source: PassSource::Original,
        dest: PassDest::Level(0),
        axis: BlurAxis::Right,
        kernel: p.kernel,
        radius_tenths: p.radius_tenths,
        dithered: false,
    };
    proof {
        lemma_count_ping_kind_push(r@, seed, PassKind::Down);
        lemma_count_ping_kind_push(r@, seed, PassKind::Up);
    }
    r.push(seed);
    let mut fbi: usize = 0;
    while fbi < p.layers
        invariant
            p.wf(),
            1 <= p.layers,
            0 <= fbi <= p.layers,
            r@.len() == 1 + 2 * fbi,
            count_ping_kind(r@, PassKind::Down) == 2 * fbi,
            count_ping_kind(r@, PassKind::Up) == 0,
            r@[0] == (PingPass {
                kind: PassKind::Seed,
                source: PassSource::Original,
                dest: PassDest::Level(0),
                axis: BlurAxis::Right,
                kernel: p.kernel,
                radius_tenths: p.radius_tenths,
                dithered: false,
            }),
            forall|f: int|
                #![trigger r@[1 + 2 * f]]
                0 <= f < fbi ==> r@[1 + 2 * f] == spec_ping_x_pass(
                    *p,
                    PassSource::Level(spec_ping_down_src(f) as usize),
                    f,
                    PassKind::Down,
                ) && r@[2 + 2 * f] == spec_ping_y_pass(*p, f, PassKind::Down),
        decreases p.layers - fbi,
    {
        let src: usize = if fbi == 0 {
            0
        } else {
            fbi - 1
        };
        let xpass = PingPass {
            kind: PassKind::Down,
            source: PassSource::Level(src),
            dest: PassDest::Scratch(fbi),
            axis: if p.diagonal {
                BlurAxis::DiagRight
            } else {
                BlurAxis::Right
            },
            kernel: p.kernel,
            radius_tenths: p.radius_tenths,
            dithered: false,
        };
        let ypass = PingPass {
            kind: PassKind::Down,
            source: PassSource::Scratch(fbi),
            dest: PassDest::Level(fbi),
            axis: if p.diagonal {
                BlurAxis::DiagLeft
            } else {
                BlurAxis::Up
            },
            kernel: p.kernel,
            radius_tenths: p.radius_tenths,
            dithered: false,
        };
        proof {
            lemma_count_ping_kind_push(r@, xpass, PassKind::Down);
            lemma_count_ping_kind_push(r@, xpass, PassKind::Up);
        }
        r.push(xpass);
        proof {
            lemma_count_ping_kind_push(r@, ypass, PassKind::Down);
            lemma_count_ping_kind_push(r@, ypass, PassKind::Up);
        }
        r.push(ypass);
        fbi = fbi + 1;
    }
    let mut jj: usize = 0;
    while jj + 1 < p.layers
        invariant
            p.wf(),
            1 <= p.layers,
            0 <= jj <= p.layers - 1,
            r@.len() == 1 + 2 * p.layers + 2 * jj,
            count_ping_kind(r@, PassKind::Down) == 2 * p.layers as int,
            count_ping_kind(r@, PassKind::Up) == 2 * jj,
            r@[0] == (PingPass {
                kind: PassKind::Seed,
                source: PassSource::Original,
                dest: PassDest::Level(0),
                axis: BlurAxis::Right,
                kernel: p.kernel,
                radius_tenths: p.radius_tenths,
                dithered: false,
            }),
            forall|f: int|
                #![trigger r@[1 + 2 * f]]
                0 <= f < p.layers ==> r@[1 + 2 * f] == spec_ping_x_pass(
                    *p,
                    PassSource::Level(spec_ping_down_src(f) as usize),
                    f,
                    PassKind::Down,
                ) && r@[2 + 2 * f] == spec_ping_y_pass(*p, f, PassKind::Down),
            forall|j2: int|
                #![trigger r@[1 + 2 * p.layers + 2 * j2]]
                0 <= j2 < jj ==> r@[1 + 2 * p.layers + 2 * j2] == spec_ping_x_pass(
                    *p,
                    PassSource::Level((p.layers - 1 - j2) as usize),
                    p.layers - 2 - j2,
                    PassKind::Up,
                ) && r@[2 + 2 * p.layers + 2 * j2] == spec_ping_y_pass(
                    *p,
                    p.layers - 2 - j2,
                    PassKind::Up,
                ),
        decreases p.layers - jj,
    {
        let fb: usize = p.layers - 2 - jj;
        let xpass = PingPass {
            kind: PassKind::Up,
            source: PassSource::Level(p.layers - 1 - jj),
            dest: PassDest::Scratch(fb),
            axis: if p.diagonal {
                BlurAxis::DiagRight
            } else {
                BlurAxis::Right
            },
            kernel: p.kernel,
            radius_tenths: p.radius_tenths,
            dithered: false,
        };
        let ypass = PingPass {
            kind: PassKind::Up,
            source: PassSource::Scratch(fb),
            dest: PassDest::Level(fb),
            axis: if p.diagonal {
                BlurAxis::DiagLeft
            } else {
                BlurAxis::Up
            },
            kernel: p.kernel,
            radius_tenths: p.radius_tenths,
            dithered: false,
        };
        proof {
            lemma_count_ping_kind_push(r@, xpass, PassKind::Down);
            lemma_count_ping_kind_push(r@, xpass, PassKind::Up);
        }
        r.push(xpass);
        proof {
            lemma_count_ping_kind_push(r@, ypass, PassKind::Down);
            lemma_count_ping_kind_push(r@, ypass, PassKind::Up);
        }
        r.push(ypass);
        jj = jj + 1;
    }
    let blit = PingPass {
        kind: PassKind::Blit,
        source: PassSource::Level(0),
        dest: PassDest::Screen,
        axis: BlurAxis::Right,
        kernel: p.kernel,
        radius_tenths: p.radius_tenths,
        dithered: p.dithered,
    };
    proof {
        lemma_count_ping_kind_push(r@, blit, PassKind::Down);
        lemma_count_ping_kind_push(r@, blit, PassKind::Up);
    }
    r.push(blit);
    r
}

} // verus!
