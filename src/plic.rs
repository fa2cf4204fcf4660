//! Bring-up of the external interrupt controller and of the core's interrupt
//! state.
//!
//! [`setup_interrupts`] gives the register operations, in order; the target
//! performs them at boot. [`ControllerModel`] says what each operation does,
//! and [`lemma_setup_reaches_ready`] that the sequence leaves the controller
//! in a known state whatever state it started from.
use vstd::prelude::*;

verus! {

/// Base address of the external interrupt controller.
pub const PLIC_BASE: usize = 0xE400_0000;

/// Number of interrupt sources whose claims are completed at setup.
pub const PLIC_SOURCES: usize = 128;

/// Number of interrupt-enable words of a target.
pub const PLIC_ENABLE_WORDS: usize = 4;

/// One register operation of interrupt setup. Controller operations act on
/// target 0, the hart this runtime runs on.
#[derive(Clone, Copy, Debug, PartialEq, Eq, Structural)]
pub enum ControllerOp {
    /// Write the controller's priority threshold.
    SetThreshold(u32),
    /// Write `id` to the claim/complete register, completing any claim of
    /// source `id`.
    CompleteClaim(u16),
    /// Write `value` to enable word `index`.
    WriteEnableWord { index: usize, value: u32 },
    /// Let the cycle counter be read.
    EnableCycleCounter,
    /// Write the trap-vector base register.
    WriteTrapVector(usize),
    /// Put the controller in vectored mode.
    EnableVectoredMode,
    /// Set the core control bit that dispatches external interrupts through
    /// the vector table; the trap-vector mode field is then ignored.
    EnableCoreVectoring,
    /// Set the machine and supervisor global interrupt enables.
    EnableGlobalInterrupts,
    /// Enable the machine external interrupt class.
    EnableMachineExternal,
}

/// Relies on riscv's `Mtvec::new`: with the direct trap mode, whose field is
/// zero, the register value is the address itself; it panics on an address
/// not aligned to four bytes.
#[verifier::external_body]
fn trap_vector_value(address: usize) -> (r: usize)
    requires
        address % 4 == 0,
    ensures
        r == address,
{
    riscv::register::mtvec::Mtvec::new(address, riscv::register::mtvec::TrapMode::Direct).bits()
}

/// The claim completions of sources `0..n`, in order.
pub open spec fn claim_ops(n: nat) -> Seq<ControllerOp> {
    Seq::new(n, |i: int| ControllerOp::CompleteClaim(i as u16))
}

/// The writes that clear enable words `0..n`, in order.
pub open spec fn enable_clear_ops(n: nat) -> Seq<ControllerOp> {
    Seq::new(n, |i: int| ControllerOp::WriteEnableWord { index: i as usize, value: 0 })
}

/// The operations of interrupt setup with the vector table at
/// `vector_table`: accept every priority, complete every claim, disable
/// every source, enable the cycle counter, point the trap vector at the
/// table, turn on vectored dispatch, then enable interrupts.
pub open spec fn setup_ops(vector_table: usize) -> Seq<ControllerOp> {
    seq![ControllerOp::SetThreshold(0)] + claim_ops(PLIC_SOURCES as nat) + enable_clear_ops(
        PLIC_ENABLE_WORDS as nat,
    ) + seq![
        ControllerOp::EnableCycleCounter,
        ControllerOp::WriteTrapVector(vector_table),
        ControllerOp::EnableVectoredMode,
        ControllerOp::EnableCoreVectoring,
        ControllerOp::EnableGlobalInterrupts,
        ControllerOp::EnableMachineExternal,
    ]
}

/// The register operations that set up interrupts, with the vector table
/// at `vector_table`, in the order they are performed.
pub fn setup_interrupts(vector_table: usize) -> (r: Vec<ControllerOp>)
    requires
        vector_table % 4 == 0,
    ensures
        r@ == setup_ops(vector_table),
{
    let mut ops: Vec<ControllerOp> = Vec::new();
    ops.push(ControllerOp::SetThreshold(0));
    let mut i: usize = 0;
    while i < PLIC_SOURCES
        invariant
            i <= PLIC_SOURCES,
            ops@ == seq![ControllerOp::SetThreshold(0)] + claim_ops(i as nat),
        decreases PLIC_SOURCES - i,
    {
        ops.push(ControllerOp::CompleteClaim(i as u16));
        i = i + 1;
        assert(ops@ =~= seq![ControllerOp::SetThreshold(0)] + claim_ops(i as nat));
    }
    let mut w: usize = 0;
    while w < PLIC_ENABLE_WORDS
        invariant
            w <= PLIC_ENABLE_WORDS,
            ops@ == seq![ControllerOp::SetThreshold(0)] + claim_ops(PLIC_SOURCES as nat) + enable_clear_ops(w as nat),
        decreases PLIC_ENABLE_WORDS - w,
    {
        ops.push(ControllerOp::WriteEnableWord { index: w, value: 0 });
        w = w + 1;
        assert(ops@ =~= seq![ControllerOp::SetThreshold(0)] + claim_ops(PLIC_SOURCES as nat) + enable_clear_ops(w as nat));
    }
    ops.push(ControllerOp::EnableCycleCounter);
    ops.push(ControllerOp::WriteTrapVector(trap_vector_value(vector_table)));
    ops.push(ControllerOp::EnableVectoredMode);
    ops.push(ControllerOp::EnableCoreVectoring);
    ops.push(ControllerOp::EnableGlobalInterrupts);
    ops.push(ControllerOp::EnableMachineExternal);
    assert(ops@ =~= setup_ops(vector_table));
    ops
}

/// The `i`-th operation of interrupt setup, or none past its end. It makes
/// no allocation.
pub fn setup_op(vector_table: usize, i: usize) -> (r: Option<ControllerOp>)
    requires
        vector_table % 4 == 0,
    ensures
        r == if i < setup_ops(vector_table).len() {
            Some(setup_ops(vector_table)[i as int])
        } else {
            None::<ControllerOp>
        },
{
    let ghost head = seq![ControllerOp::SetThreshold(0)] + claim_ops(PLIC_SOURCES as nat);
    let ghost clears = head + enable_clear_ops(PLIC_ENABLE_WORDS as nat);
    let ghost tail = seq![
        ControllerOp::EnableCycleCounter,
        ControllerOp::WriteTrapVector(vector_table),
        ControllerOp::EnableVectoredMode,
        ControllerOp::EnableCoreVectoring,
        ControllerOp::EnableGlobalInterrupts,
        ControllerOp::EnableMachineExternal,
    ];
    assert(setup_ops(vector_table) == clears + tail);
    if i == 0 {
        Some(ControllerOp::SetThreshold(0))
    } else if i <= PLIC_SOURCES {
        assert(setup_ops(vector_table)[i as int] == claim_ops(PLIC_SOURCES as nat)[i - 1]);
        Some(ControllerOp::CompleteClaim((i - 1) as u16))
    } else if i <= PLIC_SOURCES + PLIC_ENABLE_WORDS {
        assert(setup_ops(vector_table)[i as int] == enable_clear_ops(PLIC_ENABLE_WORDS as nat)[i - 1 - PLIC_SOURCES]);
        Some(ControllerOp::WriteEnableWord { index: i - 1 - PLIC_SOURCES, value: 0 })
    } else if i < PLIC_SOURCES + PLIC_ENABLE_WORDS + 7 {
        let k: usize = i - 1 - PLIC_SOURCES - PLIC_ENABLE_WORDS;
        assert(setup_ops(vector_table)[i as int] == tail[k as int]);
        Some(
            if k == 0 { ControllerOp::EnableCycleCounter }
            else if k == 1 { ControllerOp::WriteTrapVector(trap_vector_value(vector_table)) }
            else if k == 2 { ControllerOp::EnableVectoredMode }
            else if k == 3 { ControllerOp::EnableCoreVectoring }
            else if k == 4 { ControllerOp::EnableGlobalInterrupts }
            else { ControllerOp::EnableMachineExternal },
        )
    } else {
        None
    }
}

/// The interrupt state that setup acts on.
pub struct ControllerModel {
    /// The controller's priority threshold.
    pub threshold: u32,
    /// The sources claimed and not yet completed.
    pub in_service: Set<int>,
    /// The interrupt-enable words, by index.
    pub enable_words: Map<int, u32>,
    /// Whether the cycle counter can be read.
    pub cycle_counter: bool,
    /// The trap-vector base register.
    pub trap_vector: usize,
    /// Whether the controller is in vectored mode.
    pub vectored: bool,
    /// Whether the core dispatches external interrupts through the table.
    pub core_vectoring: bool,
    /// Whether interrupts are globally enabled.
    pub global_enabled: bool,
    /// Whether the machine external interrupt class is enabled.
    pub machine_external: bool,
}

/// The effect of one operation.
pub open spec fn apply_op(m: ControllerModel, op: ControllerOp) -> ControllerModel {
    match op {
        ControllerOp::SetThreshold(t) => ControllerModel { threshold: t, ..m },
        ControllerOp::CompleteClaim(id) => ControllerModel { in_service: m.in_service.remove(id as int), ..m },
        ControllerOp::WriteEnableWord { index, value } => ControllerModel {
            enable_words: m.enable_words.insert(index as int, value),
            ..m
        },
        ControllerOp::EnableCycleCounter => ControllerModel { cycle_counter: true, ..m },
        ControllerOp::WriteTrapVector(v) => ControllerModel { trap_vector: v, ..m },
        ControllerOp::EnableVectoredMode => ControllerModel { vectored: true, ..m },
        ControllerOp::EnableCoreVectoring => ControllerModel { core_vectoring: true, ..m },
        ControllerOp::EnableGlobalInterrupts => ControllerModel { global_enabled: true, ..m },
        ControllerOp::EnableMachineExternal => ControllerModel { machine_external: true, ..m },
    }
}

/// The effect of a sequence of operations performed in order.
pub open spec fn run_ops(m: ControllerModel, ops: Seq<ControllerOp>) -> ControllerModel
    decreases ops.len(),
{
    if ops.len() == 0 {
        m
    } else {
        apply_op(run_ops(m, ops.drop_last()), ops.last())
    }
}

/// The state interrupt setup must leave: every priority accepted, no claim
/// outstanding, every source disabled, the cycle counter on, the trap vector
/// at the table, vectored dispatch on and interrupts enabled.
pub open spec fn is_ready(m: ControllerModel, vector_table: usize) -> bool {
    &&& m.threshold == 0
    &&& forall|i: int| 0 <= i < PLIC_SOURCES ==> !#[trigger] m.in_service.contains(i)
    &&& forall|w: int|
        0 <= w < PLIC_ENABLE_WORDS ==> #[trigger] m.enable_words.contains_key(w) && m.enable_words[w] == 0
    &&& m.cycle_counter
    &&& m.trap_vector == vector_table
    &&& m.vectored
    &&& m.core_vectoring
    &&& m.global_enabled
    &&& m.machine_external
}

proof fn lemma_run_split(m: ControllerModel, a: Seq<ControllerOp>, b: Seq<ControllerOp>)
    ensures
        run_ops(m, a + b) == run_ops(run_ops(m, a), b),
    decreases b.len(),
{
    if b.len() == 0 {
        assert(a + b =~= a);
    } else {
        assert((a + b).drop_last() =~= a + b.drop_last());
        lemma_run_split(m, a, b.drop_last());
    }
}

proof fn lemma_claims(m: ControllerModel, n: nat)
    requires
        n <= PLIC_SOURCES,
    ensures
        forall|i: int| 0 <= i < n ==> !#[trigger] run_ops(m, claim_ops(n)).in_service.contains(i),
        run_ops(m, claim_ops(n)) == (ControllerModel {
            in_service: run_ops(m, claim_ops(n)).in_service,
            ..m
        }),
    decreases n,
{
    if n > 0 {
        assert(claim_ops(n).drop_last() =~= claim_ops((n - 1) as nat));
        lemma_claims(m, (n - 1) as nat);
    }
}

proof fn lemma_enable_clears(m: ControllerModel, n: nat)
    requires
        n <= PLIC_ENABLE_WORDS,
    ensures
        forall|w: int|
            0 <= w < n ==> #[trigger] run_ops(m, enable_clear_ops(n)).enable_words.contains_key(w)
                && run_ops(m, enable_clear_ops(n)).enable_words[w] == 0,
        run_ops(m, enable_clear_ops(n)) == (ControllerModel {
            enable_words: run_ops(m, enable_clear_ops(n)).enable_words,
            ..m
        }),
    decreases n,
{
    if n > 0 {
        assert(enable_clear_ops(n).drop_last() =~= enable_clear_ops((n - 1) as nat));
        lemma_enable_clears(m, (n - 1) as nat);
    }
}

/// Whatever state the controller and the core start in, performing the
/// setup operations leaves them ready.
pub proof fn lemma_setup_reaches_ready(m: ControllerModel, vector_table: usize)
    ensures
        is_ready(run_ops(m, setup_ops(vector_table)), vector_table),
{
    let head = seq![ControllerOp::SetThreshold(0)];
    let claims = claim_ops(PLIC_SOURCES as nat);
    let clears = enable_clear_ops(PLIC_ENABLE_WORDS as nat);
    let tail = seq![
        ControllerOp::EnableCycleCounter,
        ControllerOp::WriteTrapVector(vector_table),
        ControllerOp::EnableVectoredMode,
        ControllerOp::EnableCoreVectoring,
        ControllerOp::EnableGlobalInterrupts,
        ControllerOp::EnableMachineExternal,
    ];
    lemma_run_split(m, head + claims + clears, tail);
    lemma_run_split(m, head + claims, clears);
    lemma_run_split(m, head, claims);
    assert(head.drop_last() =~= Seq::<ControllerOp>::empty());
    let m1 = run_ops(m, head);
    assert(m1.threshold == 0);
    lemma_claims(m1, PLIC_SOURCES as nat);
    let m2 = run_ops(m1, claims);
    lemma_enable_clears(m2, PLIC_ENABLE_WORDS as nat);
    let m3 = run_ops(m2, clears);
    assert(tail.drop_last().drop_last().drop_last().drop_last().drop_last().drop_last() =~= Seq::<
        ControllerOp,
    >::empty());
    reveal_with_fuel(run_ops, 7);
    let m4 = run_ops(m3, tail);
    assert(m4.threshold == 0);
}

} // verus!
