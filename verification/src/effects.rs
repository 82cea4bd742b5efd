//! What a potion does, and for how long.
//!
//! An effect is a level and a countdown. The part worth reading twice is what happens when the
//! same effect is applied twice. A stronger but shorter one does not replace a weaker longer one —
//! it **hides** it, and the weaker one comes back when the stronger runs out. That is why drinking
//! a splash of swiftness II over a long swiftness I leaves the swiftness I still running
//! afterwards.
//!
//! How much an effect heals or hurts is a fraction and is the caller's to work out; which effects
//! do anything on a tick, and when, is decided here.
use crate::effect_kinds::{effect_id, instant_effects, Effect};
use vstd::arithmetic::power2::{lemma2_to64, lemma_pow2_strictly_increases, lemma_pow2_unfold, pow2};
use vstd::bits::lemma_u16_shl_is_mul;
use vstd::prelude::*;

verus! {

/// What a duration of -1 means, which is forever.
pub const FOREVER: i32 = -1;

/// The strongest an effect goes.
pub const MAX_AMPLIFIER: u8 = 255;

/// One application waiting behind a stronger one.
#[derive(Debug, Clone, Copy, PartialEq, Eq, Structural)]
pub struct Waiting {
    pub amplifier: u8,
    pub duration: i32,
    pub ambient: bool,
    pub visible: bool,
    pub show_icon: bool,
}

/// What is left of one effect on one entity.
#[derive(Debug)]
pub struct Instance {
    /// Zero is level one, which is how the wire counts it and how the name reads: amplifier 0 is
    /// "Speed I".
    pub amplifier: u8,
    /// Ticks left, or `FOREVER`.
    pub duration: i32,
    /// From a beacon or a conduit, which a client draws faintly.
    pub ambient: bool,
    /// Whether the swirling particles are shown.
    pub visible: bool,
    /// Whether the icon is shown in the corner.
    pub show_icon: bool,
    /// Weaker, longer applications waiting behind this one, nearest first.
    behind: Vec<Waiting>,
}

/// An effect as it stands: the application in front, and those waiting behind it, nearest first.
pub struct Held {
    pub front: Waiting,
    pub behind: Seq<Waiting>,
}

impl View for Instance {
    type V = Held;

    closed spec fn view(&self) -> Held {
        Held {
            front: Waiting {
                amplifier: self.amplifier,
                duration: self.duration,
                ambient: self.ambient,
                visible: self.visible,
                show_icon: self.show_icon,
            },
            behind: self.behind@,
        }
    }
}

/// Whether an application with `duration` left has less left than one with `other`. One that
/// never runs out has more left than anything, and less left than nothing.
pub open spec fn shorter(duration: i32, other: i32) -> bool {
    duration != FOREVER && (duration < other || other == FOREVER)
}

/// Whether an application is still running.
pub open spec fn running(w: Waiting) -> bool {
    w.duration == FOREVER || w.duration > 0
}

/// Where a weaker application taking over waits: in front of the first one already waiting that
/// it outdoes or outlasts, or last.
pub open spec fn waits_at(behind: Seq<Waiting>, taking_over: Waiting) -> int
    decreases behind.len(),
{
    if behind.len() == 0 {
        0
    } else if taking_over.amplifier > behind[0].amplifier || shorter(
        behind[0].duration,
        taking_over.duration,
    ) {
        0
    } else {
        1 + waits_at(behind.drop_first(), taking_over)
    }
}

/// Where a weaker application that waits goes: in front of the first one already waiting that it
/// outdoes or outlasts, so every one ahead of it is at least as strong and lasts at least as long,
/// and the one just behind it, if any, is weaker or shorter.
proof fn lemma_waits_at_place(behind: Seq<Waiting>, taking_over: Waiting)
    ensures
        0 <= waits_at(behind, taking_over) <= behind.len(),
        forall|i: int|
            0 <= i < waits_at(behind, taking_over) ==> (#[trigger] behind[i]).amplifier
                >= taking_over.amplifier && !shorter(behind[i].duration, taking_over.duration),
        waits_at(behind, taking_over) < behind.len() ==> ({
            let next = behind[waits_at(behind, taking_over)];
            taking_over.amplifier > next.amplifier || shorter(next.duration, taking_over.duration)
        }),
    decreases behind.len(),
{
    if behind.len() > 0 {
        lemma_waits_at_place(behind.drop_first(), taking_over);
        let w = waits_at(behind, taking_over);
        assert forall|i: int| 0 <= i < w implies (#[trigger] behind[i]).amplifier
            >= taking_over.amplifier && !shorter(behind[i].duration, taking_over.duration) by {
            if i > 0 {
                assert(behind[i] == behind.drop_first()[i - 1]);
            }
        }
        if 0 < w < behind.len() {
            assert(behind[w] == behind.drop_first()[w - 1]);
        }
    }
}

/// A weaker application that outlasts what is in front waits behind it, placed ahead of every
/// waiting application it outdoes or outlasts: what is in front stays, and the waiting ones are
/// what they were with the new one put in at the one place where every one ahead of it is at least
/// as strong and lasts at least as long, and the one just behind it is weaker or shorter. So the
/// strongest waiting application comes forward first.
pub proof fn lemma_weaker_waits_in_its_place(held: Held, weaker: Waiting)
    requires
        weaker.amplifier < held.front.amplifier,
        shorter(held.front.duration, weaker.duration),
    ensures
        taken_over(held, weaker).front.amplifier == held.front.amplifier,
        taken_over(held, weaker).front.duration == held.front.duration,
        exists|k: int|
            #![trigger held.behind.insert(k, weaker)]
            0 <= k <= held.behind.len() && taken_over(held, weaker).behind == held.behind.insert(
                k,
                weaker,
            ) && (forall|i: int|
                0 <= i < k ==> (#[trigger] held.behind[i]).amplifier >= weaker.amplifier
                    && !shorter(held.behind[i].duration, weaker.duration)) && (k
                < held.behind.len() ==> (weaker.amplifier > held.behind[k].amplifier || shorter(
                held.behind[k].duration,
                weaker.duration,
            ))),
{
    lemma_waits_at_place(held.behind, weaker);
    let k = waits_at(held.behind, weaker);
    assert(taken_over(held, weaker).behind == held.behind.insert(k, weaker));
}

/// Whether taking over changes what is in front: a stronger one, or an equally strong longer one.
pub open spec fn takes_front(held: Waiting, taking_over: Waiting) -> bool {
    taking_over.amplifier > held.amplifier || (shorter(held.duration, taking_over.duration)
        && taking_over.amplifier == held.amplifier)
}

/// What an effect comes to when another application of it takes over.
///
/// Vanilla's rule in full: a stronger one goes in front, and a weaker one it is shorter than
/// waits behind it; an equally strong longer one just extends; and a weaker longer one waits
/// behind whatever is in front of it. The flags follow the newer application.
pub open spec fn taken_over(held: Held, taking_over: Waiting) -> Held {
    let front = held.front;
    let main_changed = takes_front(front, taking_over);
    let (amplifier, duration, behind) = if taking_over.amplifier > front.amplifier {
        (
            taking_over.amplifier,
            taking_over.duration,
            if shorter(taking_over.duration, front.duration) {
                seq![front] + held.behind
            } else {
                held.behind
            },
        )
    } else if shorter(front.duration, taking_over.duration) {
        if taking_over.amplifier == front.amplifier {
            (front.amplifier, taking_over.duration, held.behind)
        } else {
            (
                front.amplifier,
                front.duration,
                held.behind.insert(waits_at(held.behind, taking_over), taking_over),
            )
        }
    } else {
        (front.amplifier, front.duration, held.behind)
    };
    Held {
        front: Waiting {
            amplifier,
            duration,
            ambient: if (!taking_over.ambient && front.ambient) || main_changed {
                taking_over.ambient
            } else {
                front.ambient
            },
            visible: taking_over.visible,
            show_icon: taking_over.show_icon,
        },
        behind,
    }
}

/// Whether taking over changes anything a client can see.
pub open spec fn visibly_changed(held: Held, taking_over: Waiting) -> bool {
    takes_front(held.front, taking_over) || (!taking_over.ambient && held.front.ambient)
        || taking_over.visible != held.front.visible || taking_over.show_icon
        != held.front.show_icon
}

/// What an effect comes to when one tick passes: an effect that does not last forever has a tick
/// less, and one that has just run out is replaced by the nearest one waiting behind it.
pub open spec fn counted_down(held: Held) -> Held {
    let front = held.front;
    let duration: int = if front.duration != FOREVER {
        front.duration - 1
    } else {
        front.duration as int
    };
    if duration == 0 && held.behind.len() > 0 {
        Held { front: held.behind[0], behind: held.behind.drop_first() }
    } else {
        Held { front: Waiting { duration: duration as i32, ..front }, behind: held.behind }
    }
}

/// Whether a tick passing brings one waiting behind forward.
pub open spec fn comes_forward(held: Held) -> bool {
    let front = held.front;
    front.duration != FOREVER && front.duration - 1 == 0 && held.behind.len() > 0
}

/// An effect after `n` ticks have passed.
pub open spec fn counted_down_times(held: Held, n: nat) -> Held
    decreases n,
{
    if n == 0 {
        held
    } else {
        counted_down(counted_down_times(held, (n - 1) as nat))
    }
}

/// Until it runs out, the application in front only counts down, and nothing behind it moves.
proof fn lemma_counts_down(held: Held, k: nat)
    requires
        held.front.duration > k,
    ensures
        counted_down_times(held, k) == (Held {
            front: Waiting { duration: (held.front.duration - k) as i32, ..held.front },
            behind: held.behind,
        }),
    decreases k,
{
    if k > 0 {
        lemma_counts_down(held, (k - 1) as nat);
    }
}

/// A stronger but shorter application hides a weaker one rather than replacing it: once the
/// stronger one has run out, the weaker one is in front again, exactly as it was, with whatever
/// was waiting behind it still waiting.
pub proof fn lemma_hidden_comes_back(held: Held, stronger: Waiting)
    requires
        stronger.amplifier > held.front.amplifier,
        shorter(stronger.duration, held.front.duration),
        stronger.duration > 0,
    ensures
        counted_down_times(taken_over(held, stronger), stronger.duration as nat).front
            == held.front,
        counted_down_times(taken_over(held, stronger), stronger.duration as nat).behind
            == held.behind,
{
    let over = taken_over(held, stronger);
    assert(over.front.duration == stronger.duration);
    assert(over.behind == seq![held.front] + held.behind);
    let d = stronger.duration as nat;
    lemma_counts_down(over, (d - 1) as nat);
    assert((seq![held.front] + held.behind).drop_first() =~= held.behind);
}

/// A stronger application that lasts longer simply replaces what was in front: nothing is left
/// waiting for it.
pub proof fn lemma_stronger_longer_replaces(held: Held, stronger: Waiting)
    requires
        stronger.amplifier > held.front.amplifier,
        !shorter(stronger.duration, held.front.duration),
    ensures
        taken_over(held, stronger).front.amplifier == stronger.amplifier,
        taken_over(held, stronger).front.duration == stronger.duration,
        taken_over(held, stronger).behind == held.behind,
{
}

/// A weaker application changes nothing in front: where it lasts longer it waits behind, and
/// where it does not it is dropped.
pub proof fn lemma_weaker_waits_or_goes(held: Held, weaker: Waiting)
    requires
        weaker.amplifier < held.front.amplifier,
    ensures
        taken_over(held, weaker).front.amplifier == held.front.amplifier,
        taken_over(held, weaker).front.duration == held.front.duration,
        shorter(held.front.duration, weaker.duration) ==> taken_over(held, weaker).behind
            == held.behind.insert(waits_at(held.behind, weaker), weaker),
        !shorter(held.front.duration, weaker.duration) ==> taken_over(held, weaker).behind
            == held.behind,
{
}

/// Something endless never runs out, however many ticks pass.
pub proof fn lemma_endless_never_runs_out(held: Held, n: nat)
    requires
        held.front.duration == FOREVER,
    ensures
        counted_down_times(held, n) == held,
    decreases n,
{
    if n > 0 {
        lemma_endless_never_runs_out(held, (n - 1) as nat);
        assert(counted_down(held).front =~= held.front);
    }
}

impl Instance {
    /// A plain effect, as a potion gives it.
    pub fn new(amplifier: u8, duration: i32) -> (r: Self)
        ensures
            r@.front == (Waiting {
                amplifier,
                duration,
                ambient: false,
                visible: true,
                show_icon: true,
            }),
            r@.behind == Seq::<Waiting>::empty(),
    {
        Instance {
            amplifier,
            duration,
            ambient: false,
            visible: true,
            show_icon: true,
            behind: Vec::new(),
        }
    }

    /// The application in front, as it would wait behind another.
    fn front(&self) -> (r: Waiting)
        ensures
            r == self@.front,
    {
        Waiting {
            amplifier: self.amplifier,
            duration: self.duration,
            ambient: self.ambient,
            visible: self.visible,
            show_icon: self.show_icon,
        }
    }

    /// Whether it is still running.
    pub fn running(&self) -> (r: bool)
        ensures
            r == running(self@.front),
    {
        self.duration == FOREVER || self.duration > 0
    }

    /// Whether it never runs out.
    pub fn forever(&self) -> (r: bool)
        ensures
            r == (self@.front.duration == FOREVER),
    {
        self.duration == FOREVER
    }

    /// How many applications are waiting behind this one.
    pub fn waiting(&self) -> (r: usize)
        ensures
            r == self@.behind.len(),
    {
        self.behind.len()
    }

    /// Takes over from another application of the same effect: see `taken_over`. Returns whether
    /// anything a client can see changed.
    pub fn update(&mut self, taking_over: &Instance) -> (r: bool)
        ensures
            final(self)@ == taken_over(old(self)@, taking_over@.front),
            r == visibly_changed(old(self)@, taking_over@.front),
    {
        let ghost before = self@;
        let incoming = taking_over.front();
        let mut changed = false;
        if taking_over.amplifier > self.amplifier {
            if shorter_than(taking_over.duration, self.duration) {
                let front = self.front();
                self.behind.insert(0, front);
                assert(self.behind@ =~= seq![before.front] + before.behind);
            }
            self.amplifier = taking_over.amplifier;
            self.duration = taking_over.duration;
            changed = true;
        } else if shorter_than(self.duration, taking_over.duration) {
            if taking_over.amplifier == self.amplifier {
                self.duration = taking_over.duration;
                changed = true;
            } else {
                let at = waiting_place(&self.behind, incoming);
                self.behind.insert(at, incoming);
            }
        }
        if (!taking_over.ambient && self.ambient) || changed {
            self.ambient = taking_over.ambient;
            changed = true;
        }
        if taking_over.visible != self.visible {
            self.visible = taking_over.visible;
            changed = true;
        }
        if taking_over.show_icon != self.show_icon {
            self.show_icon = taking_over.show_icon;
            changed = true;
        }
        assert(self@.front == taken_over(before, incoming).front);
        assert(self@.behind =~= taken_over(before, incoming).behind);
        changed
    }

    /// One tick passing: see `counted_down`. Returns whether one waiting behind has come
    /// forward.
    pub fn tick_down(&mut self) -> (r: bool)
        requires
            old(self)@.front.duration > i32::MIN,
        ensures
            final(self)@ == counted_down(old(self)@),
            r == comes_forward(old(self)@),
    {
        let ghost before = self@;
        if self.duration != FOREVER {
            self.duration = self.duration - 1;
        }
        if self.duration == 0 && self.behind.len() > 0 {
            let next = self.behind.remove(0);
            self.amplifier = next.amplifier;
            self.duration = next.duration;
            self.ambient = next.ambient;
            self.visible = next.visible;
            self.show_icon = next.show_icon;
            assert(self@.behind =~= before.behind.drop_first());
            return true;
        }
        assert(self@.front == counted_down(before).front);
        false
    }
}

/// Whether an application with `duration` left has less left than one with `other`.
fn shorter_than(duration: i32, other: i32) -> (r: bool)
    ensures
        r == shorter(duration, other),
{
    duration != FOREVER && (duration < other || other == FOREVER)
}

/// Where a weaker application taking over waits: see `waits_at`.
fn waiting_place(behind: &Vec<Waiting>, taking_over: Waiting) -> (r: usize)
    ensures
        r == waits_at(behind@, taking_over),
        r <= behind@.len(),
{
    let mut k: usize = 0;
    assert(behind@.skip(0) =~= behind@);
    while k < behind.len()
        invariant
            k <= behind@.len(),
            waits_at(behind@, taking_over) == k + waits_at(behind@.skip(k as int), taking_over),
        decreases behind.len() - k,
    {
        let held = behind[k];
        assert(behind@.skip(k as int)[0] == held);
        if taking_over.amplifier > held.amplifier || shorter_than(
            held.duration,
            taking_over.duration,
        ) {
            return k;
        }
        assert(behind@.skip(k as int).drop_first() =~= behind@.skip(k + 1));
        k = k + 1;
    }
    k
}

/// What an effect does on the ticks it does anything, beyond the attribute modifiers it moves.
///
/// How much it heals or hurts is worked out by whoever applies it.
#[derive(Debug, Clone, Copy, PartialEq, Eq, Structural)]
pub enum Beat {
    /// Heals, and only up to full.
    Heal,
    /// Hurts, and — where it spares — never to death.
    Hurt { spares: bool },
    /// Withers, which does kill.
    Wither,
    /// Makes a player hungrier.
    Hunger,
}

/// Whether an effect whose interval is `base` at level one does anything at `age`: the interval
/// halves with each level, and an interval shrunk to nothing fires every tick.
pub open spec fn fires(base: i32, amplifier: u8, age: i32) -> bool {
    let shift = if amplifier < 31 {
        amplifier as u32
    } else {
        31u32
    };
    let interval = base >> shift;
    interval <= 0 || age % interval == 0
}

/// What an effect does at `age`, if anything.
pub open spec fn beat_at(effect: Effect, amplifier: u8, age: i32) -> Option<Beat> {
    match effect {
        Effect::Regeneration => if fires(50, amplifier, age) {
            Some(Beat::Heal)
        } else {
            None
        },
        Effect::Poison => if fires(25, amplifier, age) {
            Some(Beat::Hurt { spares: true })
        } else {
            None
        },
        Effect::Wither => if fires(40, amplifier, age) {
            Some(Beat::Wither)
        } else {
            None
        },
        Effect::Hunger => Some(Beat::Hunger),
        _ => None,
    }
}

/// Whether an effect whose interval is `base` at level one does anything at `age`.
fn fires_at(base: i32, amplifier: u8, age: i32) -> (r: bool)
    requires
        0 < base <= 64,
    ensures
        r == fires(base, amplifier, age),
{
    let shift: u32 = if amplifier < 31 {
        amplifier as u32
    } else {
        31
    };
    let interval = base >> shift;
    if interval <= 0 {
        return true;
    }
    let whole: u64 = if age < 0 {
        (0 - (age as i64)) as u64
    } else {
        age as u64
    };
    proof {
        lemma_divides_either_way(age as int, interval as int);
    }
    whole % (interval as u64) == 0
}

/// A number is a multiple of a positive one exactly when its negation is.
proof fn lemma_divides_either_way(a: int, b: int)
    requires
        b > 0,
    ensures
        (a % b == 0) == ((-a) % b == 0),
{
    if a % b == 0 {
        vstd::arithmetic::div_mod::lemma_fundamental_div_mod(a, b);
        assert(-a == b * (-(a / b))) by (nonlinear_arith)
            requires
                a == b * (a / b),
        ;
        vstd::arithmetic::div_mod::lemma_mod_multiples_basic(-(a / b), b);
        assert((-(a / b)) * b == b * (-(a / b))) by (nonlinear_arith);
    }
    if (-a) % b == 0 {
        vstd::arithmetic::div_mod::lemma_fundamental_div_mod(-a, b);
        assert(a == b * (-((-a) / b))) by (nonlinear_arith)
            requires
                -a == b * ((-a) / b),
        ;
        vstd::arithmetic::div_mod::lemma_mod_multiples_basic(-((-a) / b), b);
        assert((-((-a) / b)) * b == b * (-((-a) / b))) by (nonlinear_arith);
    }
}

/// What an effect does at `age`, if anything.
///
/// `age` is the countdown for an effect that runs out and the entity's own age for one that does
/// not, which is vanilla's way of keeping an endless effect on a steady beat.
pub fn beat(effect: Effect, amplifier: u8, age: i32) -> (r: Option<Beat>)
    ensures
        r == beat_at(effect, amplifier, age),
{
    match effect {
        Effect::Regeneration => if fires_at(50, amplifier, age) {
            Some(Beat::Heal)
        } else {
            None
        },
        Effect::Poison => if fires_at(25, amplifier, age) {
            Some(Beat::Hurt { spares: true })
        } else {
            None
        },
        Effect::Wither => if fires_at(40, amplifier, age) {
            Some(Beat::Wither)
        } else {
            None
        },
        Effect::Hunger => Some(Beat::Hunger),
        _ => None,
    }
}

/// What an effect does the moment it is applied, for the four that do anything then.
///
/// Healing, harming and saturation land all at once and are never held; absorption is held but
/// does its work once, topping up the extra health that it then lasts as long as.
#[derive(Debug, Clone, Copy, PartialEq, Eq, Structural)]
pub enum AtOnce {
    /// Heals this much, and only up to full.
    Heal(u16),
    /// Hurts this much, and can kill.
    Hurt(u16),
    /// Feeds a player this much.
    Feed(u8),
    /// Tops up absorption to this much.
    Absorb(u16),
}

/// `base`, doubled once for each level past the first, up to twelve times: what makes a level of
/// healing worth twice the last, capped so a silly amplifier from a command cannot overflow it.
pub open spec fn doubled(base: int, amplifier: u8) -> int {
    base * pow2(if amplifier < 12 { amplifier as nat } else { 12nat })
}

/// What an effect does the moment it is applied, if anything.
pub open spec fn lands_at_once(effect: Effect, amplifier: u8) -> Option<AtOnce> {
    match effect {
        Effect::InstantHealth => Some(AtOnce::Heal(doubled(4, amplifier) as u16)),
        Effect::InstantDamage => Some(AtOnce::Hurt(doubled(6, amplifier) as u16)),
        Effect::Saturation => Some(AtOnce::Feed((amplifier + 1) as u8)),
        Effect::Absorption => Some(AtOnce::Absorb((4 * (amplifier + 1)) as u16)),
        _ => None,
    }
}

/// `base` doubled once a level, as a number that fits.
fn doubling(base: u16, amplifier: u8) -> (r: u16)
    requires
        0 < base <= 6,
    ensures
        r == doubled(base as int, amplifier),
{
    let shift: u16 = if amplifier < 12 {
        amplifier as u16
    } else {
        12
    };
    proof {
        lemma2_to64();
        if shift < 12 {
            lemma_pow2_strictly_increases(shift as nat, 12);
        }
        assert(base * pow2(shift as nat) <= 6 * 4096) by (nonlinear_arith)
            requires
                0 < base <= 6,
                pow2(shift as nat) <= 4096,
        ;
        lemma_u16_shl_is_mul(base, shift);
    }
    base << shift
}

/// What an effect does the moment it is applied, if anything.
pub fn on_added(effect: Effect, amplifier: u8) -> (r: Option<AtOnce>)
    requires
        (effect == Effect::Saturation || effect == Effect::Absorption) ==> amplifier < 255,
    ensures
        r == lands_at_once(effect, amplifier),
{
    match effect {
        Effect::InstantHealth => Some(AtOnce::Heal(doubling(4, amplifier))),
        Effect::InstantDamage => Some(AtOnce::Hurt(doubling(6, amplifier))),
        Effect::Saturation => Some(AtOnce::Feed(amplifier + 1)),
        Effect::Absorption => Some(AtOnce::Absorb(4 * (amplifier as u16 + 1))),
        _ => None,
    }
}

/// Each level of an effect that lands at once is worth twice the last, up to the cap.
pub proof fn lemma_each_level_doubles(base: int, amplifier: u8)
    requires
        amplifier < 12,
    ensures
        doubled(base, (amplifier + 1) as u8) == 2 * doubled(base, amplifier),
{
    lemma_pow2_unfold((amplifier + 1) as nat);
    assert(base * (2 * pow2(amplifier as nat)) == 2 * (base * pow2(amplifier as nat))) by (nonlinear_arith);
}

/// What changed about one effect, which is what has to be sent.
#[derive(Debug, Clone, Copy, PartialEq, Eq, Structural)]
pub enum Change {
    /// Newly applied, or changed enough to be worth saying again.
    Applied,
    /// Run out.
    Gone,
}

/// What a tick came to: what each effect does this tick, and what a client has to be told.
#[derive(Debug)]
pub struct Ticked {
    /// What each effect does this tick, for the few that do anything.
    pub doing: Vec<(Effect, Beat)>,
    /// What has to be told to a client: an effect gone, or one come forward from behind another.
    pub told: Vec<(Effect, Change)>,
}

/// Every effect on one entity, in the order the effects' own numbers run, which is the order a
/// client wants them.
#[derive(Debug)]
pub struct ActiveEffects {
    held: Vec<(Effect, Instance)>,
}

/// Effects held, each with what is left of it.
pub open spec fn held_view(held: Seq<(Effect, Instance)>) -> Seq<(Effect, Held)> {
    held.map_values(|p: (Effect, Instance)| (p.0, p.1@))
}

/// Whether effects are in the order of their numbers, each once.
pub open spec fn in_order(held: Seq<(Effect, Held)>) -> bool {
    forall|a: int, b: int| 0 <= a < b < held.len() ==> effect_id(held[a].0) < effect_id(held[b].0)
}

/// Where an effect is held, if it is.
pub open spec fn place_of(held: Seq<(Effect, Held)>, effect: Effect) -> Option<int> {
    if exists|k: int| 0 <= k < held.len() && held[k].0 == effect {
        Some(choose|k: int| 0 <= k < held.len() && held[k].0 == effect)
    } else {
        None
    }
}

/// How many of the effects held come before `effect` in the order of their numbers.
pub open spec fn place_for(held: Seq<(Effect, Held)>, effect: Effect) -> int
    decreases held.len(),
{
    if held.len() == 0 {
        0
    } else if effect_id(held[0].0) < effect_id(effect) {
        1 + place_for(held.drop_first(), effect)
    } else {
        0
    }
}

/// What the effects held come to once `effect` is applied as `instance`: taking over from the
/// one already held, or put in its place in the order.
pub open spec fn taken_on(held: Seq<(Effect, Held)>, effect: Effect, instance: Held) -> Seq<
    (Effect, Held),
> {
    match place_of(held, effect) {
        Some(k) => held.update(k, (effect, taken_over(held[k].1, instance.front))),
        None => held.insert(place_for(held, effect), (effect, instance)),
    }
}

/// Whether applying `effect` as `instance` changes anything a client can see.
pub open spec fn taking_on_shows(held: Seq<(Effect, Held)>, effect: Effect, instance: Held) -> bool {
    match place_of(held, effect) {
        Some(k) => visibly_changed(held[k].1, instance.front),
        None => true,
    }
}

/// An effect after a tick: counted down if it was running, and left alone if not.
pub open spec fn after_tick(h: Held) -> Held {
    if running(h.front) {
        counted_down(h)
    } else {
        h
    }
}

/// The effects still running once a tick has passed, in order.
pub open spec fn still_running(held: Seq<(Effect, Held)>) -> Seq<(Effect, Held)>
    decreases held.len(),
{
    if held.len() == 0 {
        Seq::empty()
    } else {
        let before = still_running(held.drop_last());
        let (e, h) = held.last();
        if running(after_tick(h).front) {
            before.push((e, after_tick(h)))
        } else {
            before
        }
    }
}

/// The effects that a tick brings one waiting behind forward for, in order.
pub open spec fn brought_forward(held: Seq<(Effect, Held)>) -> Seq<(Effect, Change)>
    decreases held.len(),
{
    if held.len() == 0 {
        Seq::empty()
    } else {
        let before = brought_forward(held.drop_last());
        let (e, h) = held.last();
        if running(h.front) && comes_forward(h) {
            before.push((e, Change::Applied))
        } else {
            before
        }
    }
}

/// The effects that have run out once a tick has passed, in order.
pub open spec fn run_out(held: Seq<(Effect, Held)>) -> Seq<(Effect, Change)>
    decreases held.len(),
{
    if held.len() == 0 {
        Seq::empty()
    } else {
        let before = run_out(held.drop_last());
        let (e, h) = held.last();
        if running(after_tick(h).front) {
            before
        } else {
            before.push((e, Change::Gone))
        }
    }
}

/// What each running effect does on a tick at `age`, in order: an endless effect keeps time by
/// the entity's own age, and one that runs out by its countdown.
pub open spec fn beats(held: Seq<(Effect, Held)>, age: i32) -> Seq<(Effect, Beat)>
    decreases held.len(),
{
    if held.len() == 0 {
        Seq::empty()
    } else {
        let before = beats(held.drop_last(), age);
        let (e, h) = held.last();
        let at = if h.front.duration == FOREVER {
            age
        } else {
            h.front.duration
        };
        if running(h.front) {
            match beat_at(e, h.front.amplifier, at) {
                Some(b) => before.push((e, b)),
                None => before,
            }
        } else {
            before
        }
    }
}

impl Default for ActiveEffects {
    /// Nothing held.
    fn default() -> (r: Self)
        ensures
            r@ == Seq::<(Effect, Held)>::empty(),
            r.wf(),
    {
        let r = ActiveEffects { held: Vec::new() };
        assert(r@ =~= Seq::<(Effect, Held)>::empty());
        r
    }
}

impl View for ActiveEffects {
    type V = Seq<(Effect, Held)>;

    closed spec fn view(&self) -> Seq<(Effect, Held)> {
        held_view(self.held@)
    }
}

impl ActiveEffects {
    /// The effects are held in the order of their numbers, each once.
    pub closed spec fn wf(&self) -> bool {
        in_order(self@)
    }

    /// Where an effect is held, if it is.
    fn find(&self, effect: Effect) -> (r: Option<usize>)
        ensures
            match r {
                Some(k) => k < self@.len() && self@[k as int].0 == effect && place_of(self@, effect)
                    is Some,
                None => place_of(self@, effect) is None,
            },
    {
        let mut k: usize = 0;
        while k < self.held.len()
            invariant
                k <= self.held@.len(),
                forall|j: int| 0 <= j < k ==> (#[trigger] self@[j]).0 != effect,
            decreases self.held.len() - k,
        {
            if self.held[k].0 == effect {
                assert(self@[k as int].0 == effect);
                return Some(k);
            }
            k = k + 1;
        }
        None
    }

    /// In order, an effect is held in one place at most.
    proof fn lemma_one_place(&self, effect: Effect, k: int)
        requires
            self.wf(),
            0 <= k < self@.len(),
            self@[k].0 == effect,
        ensures
            place_of(self@, effect) == Some(k),
    {
        let c = choose|j: int| 0 <= j < self@.len() && self@[j].0 == effect;
        if c != k {
            assert(effect_id(self@[c].0) != effect_id(self@[k].0)) by {
                if c < k {
                } else {
                }
            }
        }
    }

    /// Applies an effect, taking over from one already held. Returns whether anything a client
    /// can see changed. An effect that lands all at once is never held: it does its work, which
    /// is the caller's, and is gone.
    pub fn add(&mut self, effect: Effect, instance: Instance) -> (r: bool)
        requires
            old(self).wf(),
        ensures
            final(self).wf(),
            instant_effects().contains(effect) ==> final(self)@ == old(self)@ && !r,
            !instant_effects().contains(effect) ==> final(self)@ == taken_on(
                old(self)@,
                effect,
                instance@,
            ) && r == taking_on_shows(old(self)@, effect, instance@),
    {
        if effect.is_instant() {
            return false;
        }
        self.take_on(effect, instance)
    }

    /// Puts an effect in the set, taking over from one already there.
    fn take_on(&mut self, effect: Effect, instance: Instance) -> (r: bool)
        requires
            old(self).wf(),
        ensures
            final(self).wf(),
            final(self)@ == taken_on(old(self)@, effect, instance@),
            r == taking_on_shows(old(self)@, effect, instance@),
    {
        let ghost before = self@;
        match self.find(effect) {
            Some(k) => {
                proof {
                    self.lemma_one_place(effect, k as int);
                }
                let (kind, mut held) = self.held.remove(k);
                let ghost was = held@;
                let changed = held.update(&instance);
                self.held.insert(k, (kind, held));
                assert(self@ =~= before.update(k as int, (effect, taken_over(was, instance@.front))));
                changed
            },
            None => {
                let id = effect.id();
                let mut at: usize = 0;
                assert(before.skip(0) =~= before);
                while at < self.held.len() && self.held[at].0.id() < id
                    invariant
                        self@ == before,
                        at <= self.held@.len(),
                        in_order(before),
                        id == effect_id(effect),
                        forall|j: int| 0 <= j < at ==> effect_id(#[trigger] before[j].0) < id,
                        place_for(before, effect) == at + place_for(before.skip(at as int), effect),
                    decreases self.held.len() - at,
                {
                    assert(before.skip(at as int)[0] == before[at as int]);
                    assert(before.skip(at as int).drop_first() =~= before.skip(at + 1));
                    at = at + 1;
                }
                proof {
                    if at < before.len() {
                        assert(before.skip(at as int)[0] == before[at as int]);
                        assert(!(effect_id(before[at as int].0) < id));
                    }
                    assert(place_for(before, effect) == at);
                }
                self.held.insert(at, (effect, instance));
                proof {
                    assert(self@ =~= before.insert(at as int, (effect, instance@)));
                    assert forall|a: int, b: int| 0 <= a < b < self@.len() implies effect_id(
                        self@[a].0,
                    ) < effect_id(self@[b].0) by {
                        if b < at {
                        } else if a < at && b == at {
                        } else if a == at {
                            assert(effect_id(before[b - 1].0) >= id);
                            assert(before[b - 1].0 != effect);
                            assert(effect_id(before[b - 1].0) != id) by {
                                crate::effect_kinds::lemma_effect_id_injective(before[b - 1].0, effect);
                            }
                            if b - 1 > at {
                                assert(effect_id(before[at as int].0) < effect_id(before[b - 1].0));
                            }
                        } else if a < at {
                        } else {
                        }
                    }
                }
                true
            },
        }
    }

    /// Takes an effect away outright, hidden ones and all — which is what milk does for every
    /// effect.
    pub fn remove(&mut self, effect: Effect) -> (r: bool)
        requires
            old(self).wf(),
        ensures
            final(self).wf(),
            match place_of(old(self)@, effect) {
                Some(k) => r && final(self)@ == old(self)@.remove(k),
                None => !r && final(self)@ == old(self)@,
            },
    {
        match self.find(effect) {
            Some(k) => {
                proof {
                    self.lemma_one_place(effect, k as int);
                }
                let ghost before = self@;
                let _ = self.held.remove(k);
                assert(self@ =~= before.remove(k as int));
                proof {
                    assert forall|a: int, b: int| 0 <= a < b < self@.len() implies effect_id(
                        self@[a].0,
                    ) < effect_id(self@[b].0) by {
                        if a < k && b >= k {
                            assert(effect_id(before[a].0) < effect_id(before[b + 1].0));
                        } else if a >= k {
                            assert(effect_id(before[a + 1].0) < effect_id(before[b + 1].0));
                        }
                    }
                }
                true
            },
            None => false,
        }
    }

    /// Takes every effect away, and says which were held.
    pub fn clear(&mut self) -> (r: Vec<Effect>)
        ensures
            final(self).wf(),
            final(self)@ == Seq::<(Effect, Held)>::empty(),
            r@ == old(self)@.map_values(|p: (Effect, Held)| p.0),
    {
        let mut out: Vec<Effect> = Vec::new();
        let mut k: usize = 0;
        while k < self.held.len()
            invariant
                k <= self.held@.len(),
                self@ == old(self)@,
                out@ == old(self)@.take(k as int).map_values(|p: (Effect, Held)| p.0),
            decreases self.held.len() - k,
        {
            out.push(self.held[k].0);
            k = k + 1;
            assert(out@ =~= old(self)@.take(k as int).map_values(|p: (Effect, Held)| p.0));
        }
        assert(old(self)@.take(k as int) =~= old(self)@);
        self.held = Vec::new();
        assert(self@ =~= Seq::<(Effect, Held)>::empty());
        out
    }

    /// One effect, where it is held.
    pub fn get(&self, effect: Effect) -> (r: Option<&Instance>)
        requires
            self.wf(),
        ensures
            match place_of(self@, effect) {
                Some(k) => r matches Some(i) && i@ == self@[k].1,
                None => r is None,
            },
    {
        match self.find(effect) {
            Some(k) => {
                proof {
                    self.lemma_one_place(effect, k as int);
                }
                Some(&self.held[k].1)
            },
            None => None,
        }
    }

    /// What level of an effect is held, where it is held at all. One means level one, so a
    /// caller does not have to remember that nought is a level.
    pub fn level(&self, effect: Effect) -> (r: Option<u8>)
        requires
            self.wf(),
        ensures
            match place_of(self@, effect) {
                Some(k) => r == Some(
                    if self@[k].1.front.amplifier == MAX_AMPLIFIER {
                        MAX_AMPLIFIER
                    } else {
                        (self@[k].1.front.amplifier + 1) as u8
                    },
                ),
                None => r is None,
            },
    {
        match self.get(effect) {
            Some(held) => {
                if held.amplifier == MAX_AMPLIFIER {
                    Some(MAX_AMPLIFIER)
                } else {
                    Some(held.amplifier + 1)
                }
            },
            None => None,
        }
    }

    /// Whether it is held at all.
    pub fn has(&self, effect: Effect) -> (r: bool)
        ensures
            r == place_of(self@, effect) is Some,
    {
        self.find(effect).is_some()
    }

    /// Everything held, in order.
    pub fn iter(&self) -> (r: Vec<(Effect, &Instance)>)
        ensures
            r@.len() == self@.len(),
            forall|k: int| 0 <= k < r@.len() ==> (#[trigger] r@[k]).0 == self@[k].0 && r@[k].1@
                == self@[k].1,
    {
        let mut out: Vec<(Effect, &Instance)> = Vec::new();
        let mut k: usize = 0;
        while k < self.held.len()
            invariant
                k <= self.held@.len(),
                out@.len() == k,
                forall|j: int| 0 <= j < k ==> (#[trigger] out@[j]).0 == self@[j].0 && out@[j].1@
                    == self@[j].1,
            decreases self.held.len() - k,
        {
            out.push((self.held[k].0, &self.held[k].1));
            k = k + 1;
        }
        out
    }

    /// Whether nothing is held.
    pub fn is_empty(&self) -> (r: bool)
        ensures
            r == (self@.len() == 0),
    {
        self.held.len() == 0
    }

    /// One tick passing on everything held.
    ///
    /// Returns what each effect does this tick, and what has to be told to a client. An effect
    /// that runs out is dropped and reported gone; one that a stronger application was hiding
    /// comes forward and is reported applied again.
    pub fn tick(&mut self, age: i32) -> (r: Ticked)
        requires
            old(self).wf(),
        ensures
            final(self).wf(),
            final(self)@ == still_running(old(self)@),
            r.doing@ == beats(old(self)@, age),
            r.told@ == brought_forward(old(self)@) + run_out(old(self)@),
    {
        let ghost all = self@;
        let mut rest: Vec<(Effect, Instance)> = Vec::new();
        std::mem::swap(&mut rest, &mut self.held);
        let count = rest.len();
        assert(all.len() == count);
        let mut kept: Vec<(Effect, Instance)> = Vec::new();
        let mut doing: Vec<(Effect, Beat)> = Vec::new();
        let mut forward: Vec<(Effect, Change)> = Vec::new();
        let mut gone: Vec<(Effect, Change)> = Vec::new();
        let mut done: usize = 0;
        assert(all.take(0) =~= Seq::<(Effect, Held)>::empty());
        assert(all.skip(0) =~= all);
        while rest.len() > 0
            invariant
                all.len() <= usize::MAX,
                done + rest@.len() == all.len(),
                held_view(rest@) == all.skip(done as int),
                in_order(all),
                held_view(kept@) == still_running(all.take(done as int)),
                doing@ == beats(all.take(done as int), age),
                forward@ == brought_forward(all.take(done as int)),
                gone@ == run_out(all.take(done as int)),
                forall|a: int, b: int|
                    0 <= a < kept@.len() && done <= b < all.len() ==> effect_id(
                        #[trigger] held_view(kept@)[a].0,
                    ) < effect_id(#[trigger] all[b].0),
                in_order(held_view(kept@)),
            decreases rest.len(),
        {
            let ghost step = all[done as int];
            let (effect, mut instance) = rest.remove(0);
            assert(all.skip(done as int)[0] == step);
            assert((effect, instance@) == step);
            let ghost taken = all.take(done + 1);
            assert(taken.drop_last() =~= all.take(done as int));
            assert(taken.last() == step);
            if instance.running() {
                let at = if instance.forever() {
                    age
                } else {
                    instance.duration
                };
                match beat(effect, instance.amplifier, at) {
                    Some(b) => doing.push((effect, b)),
                    None => {},
                }
                if instance.tick_down() {
                    forward.push((effect, Change::Applied));
                }
            }
            if instance.running() {
                let ghost kept_before = held_view(kept@);
                kept.push((effect, instance));
                assert(held_view(kept@) =~= kept_before.push((effect, instance@)));
            } else {
                gone.push((effect, Change::Gone));
            }
            assert(all.skip(done as int).drop_first() =~= all.skip(done + 1));
            assert(held_view(rest@) =~= all.skip(done + 1));
            done = done + 1;
        }
        assert(all.take(done as int) =~= all);
        self.held = kept;
        let mut told = forward;
        let mut later = gone;
        told.append(&mut later);
        Ticked { doing, told }
    }
}

} // verus!
