//! Device control: construction and soft reset as sequences of bus and
//! timing requests that the caller carries out one at a time, and the
//! driver that holds the address and the calibration loaded.
use vstd::prelude::*;

use crate::sensor::bme280::calibration::{calibration_of, Calibration};
use crate::sensor::bme280::compensation::{measurement_of, Measurement, HUMIDITY_FULL_SCALE};

verus! {

/// The 7-bit bus address used when none is given.
pub const DEFAULT_ADDRESS: u8 = 0x76;

pub const REG_CALIB_TP: u8 = 0x88;
pub const REG_CALIB_H1: u8 = 0xA1;
pub const REG_CALIB_H: u8 = 0xE1;
pub const REG_RESET: u8 = 0xE0;
pub const REG_CTRL_HUM: u8 = 0xF2;
pub const REG_STATUS: u8 = 0xF3;
pub const REG_CTRL_MEAS: u8 = 0xF4;
pub const REG_CONFIG: u8 = 0xF5;
pub const REG_DATA: u8 = 0xF7;

/// Humidity oversampling x1.
pub const CTRL_HUM_VALUE: u8 = 0x01;
/// Temperature and pressure oversampling x1, normal mode.
pub const CTRL_MEAS_VALUE: u8 = 0x27;
/// Filter off, shortest standby.
pub const CONFIG_VALUE: u8 = 0x00;
/// The soft-reset command word.
pub const RESET_COMMAND: u8 = 0xB6;

/// Wait after power-up, in milliseconds (the device asks for at least 2).
pub const POWER_UP_MILLIS: u64 = 3;
/// Wait after each configuration write, in milliseconds.
pub const SETTLE_MILLIS: u64 = 10;
/// Wait after a soft reset, in milliseconds.
pub const RESET_MILLIS: u64 = 5;

/// One bus or timing operation that the caller performs for the driver.
#[derive(Clone, Copy, Debug, PartialEq, Eq, Structural)]
pub enum Request {
    /// Block for at least this many milliseconds.
    Wait { millis: u64 },
    /// Write the register address, then read `len` bytes starting there.
    Read { register: u8, len: usize },
    /// Write one value to a register.
    Write { register: u8, value: u8 },
}

/// The number of bytes that the caller hands back for a request.
pub open spec fn reply_len(r: Request) -> nat {
    match r {
        Request::Read { len, .. } => len as nat,
        _ => 0,
    }
}

/// Where a construction or reset sequence stands: the request that it
/// issues next.
#[derive(Clone, Copy, Debug, PartialEq, Eq, Structural)]
pub enum Phase {
    PowerUp,
    Status,
    TpCalibration,
    H1Calibration,
    HCalibration,
    HumidityControl,
    HumiditySettle,
    MeasureControl,
    MeasureSettle,
    Config,
    ConfigSettle,
    SoftReset,
    ResetSettle,
}

/// A driver for one sensor: its bus address and the calibration that was
/// last loaded from it.
#[derive(Clone, Copy, Debug)]
pub struct Driver {
    address: u8,
    calib: Calibration,
}

/// A driver as data.
pub struct DriverView {
    pub address: u8,
    pub calib: Calibration,
}

impl View for Driver {
    type V = DriverView;

    closed spec fn view(&self) -> DriverView {
        DriverView { address: self.address, calib: self.calib }
    }
}

/// A construction or reset sequence in progress.
pub struct Session {
    address: u8,
    phase: Phase,
    configure: bool,
    nvm: Vec<u8>,
}

/// A session as data: the device address, the next step, whether the
/// configuration writes follow the calibration load, and the calibration
/// bytes gathered so far (0x88..0x9F, then 0xA1, then 0xE1..0xE6).
pub struct SessionView {
    pub address: u8,
    pub phase: Phase,
    pub configure: bool,
    pub nvm: Seq<u8>,
}

impl View for Session {
    type V = SessionView;

    closed spec fn view(&self) -> SessionView {
        SessionView {
            address: self.address,
            phase: self.phase,
            configure: self.configure,
            nvm: self.nvm@,
        }
    }
}

/// What a session does with the reply to its request.
pub enum Progress {
    Continue(Session),
    Ready(Driver),
    /// The status register reported that the NVM image is being copied, so
    /// the calibration cannot be read yet.
    Failed,
}

/// A `Progress` as data.
pub enum Outcome {
    Continue(SessionView),
    Ready(DriverView),
    Failed,
}

impl View for Progress {
    type V = Outcome;

    open spec fn view(&self) -> Outcome {
        match self {
            Progress::Continue(s) => Outcome::Continue(s@),
            Progress::Ready(d) => Outcome::Ready(d@),
            Progress::Failed => Outcome::Failed,
        }
    }
}

/// The request that a session issues in each phase.
pub open spec fn request_of(v: SessionView) -> Request {
    match v.phase {
        Phase::PowerUp => Request::Wait { millis: POWER_UP_MILLIS },
        Phase::Status => Request::Read { register: REG_STATUS, len: 1 },
        Phase::TpCalibration => Request::Read { register: REG_CALIB_TP, len: 24 },
        Phase::H1Calibration => Request::Read { register: REG_CALIB_H1, len: 1 },
        Phase::HCalibration => Request::Read { register: REG_CALIB_H, len: 6 },
        Phase::HumidityControl => Request::Write { register: REG_CTRL_HUM, value: CTRL_HUM_VALUE },
        Phase::HumiditySettle => Request::Wait { millis: SETTLE_MILLIS },
        Phase::MeasureControl => Request::Write { register: REG_CTRL_MEAS, value: CTRL_MEAS_VALUE },
        Phase::MeasureSettle => Request::Wait { millis: SETTLE_MILLIS },
        Phase::Config => Request::Write { register: REG_CONFIG, value: CONFIG_VALUE },
        Phase::ConfigSettle => Request::Wait { millis: SETTLE_MILLIS },
        Phase::SoftReset => Request::Write { register: REG_RESET, value: RESET_COMMAND },
        Phase::ResetSettle => Request::Wait { millis: RESET_MILLIS },
    }
}

/// How many calibration bytes a session holds when it enters each phase.
pub open spec fn session_wf(v: SessionView) -> bool {
    v.nvm.len() == match v.phase {
        Phase::H1Calibration => 24nat,
        Phase::HCalibration => 25nat,
        Phase::HumidityControl | Phase::HumiditySettle | Phase::MeasureControl
        | Phase::MeasureSettle | Phase::Config | Phase::ConfigSettle => 31nat,
        _ => 0nat,
    }
}

/// The calibration that a complete set of NVM bytes encodes.
pub open spec fn calibration_of_nvm(nvm: Seq<u8>) -> Calibration {
    calibration_of(nvm.subrange(0, 24), nvm.subrange(24, 31))
}

/// The session moved to `phase`.
pub open spec fn next_phase(v: SessionView, phase: Phase) -> SessionView {
    SessionView { phase, ..v }
}

/// The session moved to `phase`, with the bytes of a calibration read kept.
pub open spec fn gathered(v: SessionView, phase: Phase, reply: Seq<u8>) -> SessionView {
    SessionView { phase, nvm: v.nvm + reply, ..v }
}

/// The bit of the status register that is set while the NVM image is
/// being copied.
pub open spec fn image_update_in_progress(status: u8) -> bool {
    status % 2 == 1
}

/// One step of a session: what follows the reply to `request_of(v)`.
pub open spec fn step(v: SessionView, reply: Seq<u8>) -> Outcome {
    match v.phase {
        Phase::PowerUp => Outcome::Continue(next_phase(v, Phase::Status)),
        Phase::Status => if image_update_in_progress(reply[0]) {
            Outcome::Failed
        } else {
            Outcome::Continue(next_phase(v, Phase::TpCalibration))
        },
        Phase::TpCalibration => Outcome::Continue(gathered(v, Phase::H1Calibration, reply)),
        Phase::H1Calibration => Outcome::Continue(gathered(v, Phase::HCalibration, reply)),
        Phase::HCalibration => if v.configure {
            Outcome::Continue(gathered(v, Phase::HumidityControl, reply))
        } else {
            Outcome::Ready(
                DriverView { address: v.address, calib: calibration_of_nvm(v.nvm + reply) },
            )
        },
        Phase::HumidityControl => Outcome::Continue(next_phase(v, Phase::HumiditySettle)),
        Phase::HumiditySettle => Outcome::Continue(next_phase(v, Phase::MeasureControl)),
        Phase::MeasureControl => Outcome::Continue(next_phase(v, Phase::MeasureSettle)),
        Phase::MeasureSettle => Outcome::Continue(next_phase(v, Phase::Config)),
        Phase::Config => Outcome::Continue(next_phase(v, Phase::ConfigSettle)),
        Phase::ConfigSettle => Outcome::Ready(
            DriverView { address: v.address, calib: calibration_of_nvm(v.nvm) },
        ),
        Phase::SoftReset => Outcome::Continue(next_phase(v, Phase::ResetSettle)),
        Phase::ResetSettle => Outcome::Continue(next_phase(v, Phase::TpCalibration)),
    }
}

/// A fresh construction session.
pub open spec fn construction(address: Option<u8>) -> SessionView {
    SessionView {
        address: match address {
            Some(a) => a,
            None => DEFAULT_ADDRESS,
        },
        phase: Phase::PowerUp,
        configure: true,
        nvm: Seq::empty(),
    }
}

/// A fresh reset session for a driver.
pub open spec fn reset_of(d: DriverView) -> SessionView {
    SessionView { address: d.address, phase: Phase::SoftReset, configure: false, nvm: Seq::empty() }
}

fn append(v: &mut Vec<u8>, s: &[u8])
    ensures
        final(v)@ == old(v)@ + s@,
{
    let mut i: usize = 0;
    while i < s.len()
        invariant
            i <= s@.len(),
            v@ == old(v)@ + s@.subrange(0, i as int),
        decreases s@.len() - i,
    {
        v.push(s[i]);
        i += 1;
    }
    assert(s@.subrange(0, s@.len() as int) == s@);
}

fn calibration_from_nvm(nvm: &Vec<u8>) -> (r: Calibration)
    requires
        nvm@.len() == 31,
    ensures
        r == calibration_of_nvm(nvm@),
{
    let mut tp = [0u8; 24];
    let mut i: usize = 0;
    while i < 24
        invariant
            nvm@.len() == 31,
            i <= 24,
            forall|j: int| 0 <= j < i ==> tp@[j] == nvm@[j],
        decreases 24 - i,
    {
        tp[i] = nvm[i];
        i += 1;
    }
    let mut h = [0u8; 7];
    let mut k: usize = 0;
    while k < 7
        invariant
            nvm@.len() == 31,
            k <= 7,
            forall|j: int| 0 <= j < k ==> h@[j] == nvm@[24 + j],
        decreases 7 - k,
    {
        h[k] = nvm[24 + k];
        k += 1;
    }
    assert(tp@ == nvm@.subrange(0, 24));
    assert(h@ == nvm@.subrange(24, 31));
    Calibration::from(&tp, &h)
}

impl Session {
    /// Start constructing a driver for the sensor at `address`, or at
    /// `DEFAULT_ADDRESS`.
    ///
    /// The session waits for power-up, checks the status register, loads
    /// the calibration with reads of 0x88..0x9F, 0xA1 and 0xE1..0xE6, then
    /// writes the humidity control, the measurement control (normal mode)
    /// and the configuration registers, each followed by a settle wait.
    pub fn construct(address: Option<u8>) -> (r: Session)
        ensures
            r@ == construction(address),
            session_wf(r@),
    {
        let address = match address {
            Some(a) => a,
            None => DEFAULT_ADDRESS,
        };
        Session { address, phase: Phase::PowerUp, configure: true, nvm: Vec::new() }
    }

    /// The operation that the caller performs next.
    pub fn request(&self) -> (r: Request)
        ensures
            r == request_of(self@),
    {
        match self.phase {
            Phase::PowerUp => Request::Wait { millis: POWER_UP_MILLIS },
            Phase::Status => Request::Read { register: REG_STATUS, len: 1 },
            Phase::TpCalibration => Request::Read { register: REG_CALIB_TP, len: 24 },
            Phase::H1Calibration => Request::Read { register: REG_CALIB_H1, len: 1 },
            Phase::HCalibration => Request::Read { register: REG_CALIB_H, len: 6 },
            Phase::HumidityControl => Request::Write { register: REG_CTRL_HUM, value: CTRL_HUM_VALUE },
            Phase::HumiditySettle => Request::Wait { millis: SETTLE_MILLIS },
            Phase::MeasureControl => Request::Write { register: REG_CTRL_MEAS, value: CTRL_MEAS_VALUE },
            Phase::MeasureSettle => Request::Wait { millis: SETTLE_MILLIS },
            Phase::Config => Request::Write { register: REG_CONFIG, value: CONFIG_VALUE },
            Phase::ConfigSettle => Request::Wait { millis: SETTLE_MILLIS },
            Phase::SoftReset => Request::Write { register: REG_RESET, value: RESET_COMMAND },
            Phase::ResetSettle => Request::Wait { millis: RESET_MILLIS },
        }
    }

    /// The bus address that every request of this session goes to.
    pub fn address(&self) -> (r: u8)
        ensures
            r == self@.address,
    {
        self.address
    }

    /// Take the reply to `request()` (the bytes read for a read, nothing
    /// otherwise) and move on.
    pub fn advance(self, reply: &[u8]) -> (r: Progress)
        requires
            session_wf(self@),
            reply@.len() == reply_len(request_of(self@)),
        ensures
            r@ == step(self@, reply@),
            r matches Progress::Continue(s) ==> session_wf(s@),
    {
        let Session { address, phase, configure, mut nvm } = self;
        match phase {
            Phase::PowerUp => Progress::Continue(Session { address, phase: Phase::Status, configure, nvm }),
            Phase::Status => {
                let status = reply[0];
                assert((status & 0x01 != 0) == (status % 2 == 1)) by (bit_vector);
                if status & 0x01 != 0 {
                    Progress::Failed
                } else {
                    Progress::Continue(Session { address, phase: Phase::TpCalibration, configure, nvm })
                }
            },
            Phase::TpCalibration => {
                append(&mut nvm, reply);
                Progress::Continue(Session { address, phase: Phase::H1Calibration, configure, nvm })
            },
            Phase::H1Calibration => {
                append(&mut nvm, reply);
                Progress::Continue(Session { address, phase: Phase::HCalibration, configure, nvm })
            },
            Phase::HCalibration => {
                append(&mut nvm, reply);
                if configure {
                    Progress::Continue(Session { address, phase: Phase::HumidityControl, configure, nvm })
                } else {
                    let calib = calibration_from_nvm(&nvm);
                    Progress::Ready(Driver { address, calib })
                }
            },
            Phase::HumidityControl => Progress::Continue(Session { address, phase: Phase::HumiditySettle, configure, nvm }),
            Phase::HumiditySettle => Progress::Continue(Session { address, phase: Phase::MeasureControl, configure, nvm }),
            Phase::MeasureControl => Progress::Continue(Session { address, phase: Phase::MeasureSettle, configure, nvm }),
            Phase::MeasureSettle => Progress::Continue(Session { address, phase: Phase::Config, configure, nvm }),
            Phase::Config => Progress::Continue(Session { address, phase: Phase::ConfigSettle, configure, nvm }),
            Phase::ConfigSettle => {
                let calib = calibration_from_nvm(&nvm);
                Progress::Ready(Driver { address, calib })
            },
            Phase::SoftReset => Progress::Continue(Session { address, phase: Phase::ResetSettle, configure, nvm }),
            Phase::ResetSettle => Progress::Continue(Session { address, phase: Phase::TpCalibration, configure, nvm }),
        }
    }
}

impl Driver {
    /// The bus address of the sensor.
    pub fn address(&self) -> (r: u8)
        ensures
            r == self@.address,
    {
        self.address
    }

    /// The calibration loaded from the sensor.
    pub fn calibration(&self) -> (r: Calibration)
        ensures
            r == self@.calib,
    {
        self.calib
    }

    /// The burst read of the data registers that `measure` takes.
    ///
    /// No readiness check comes first: reading faster than the configured
    /// sampling interval may give the values of the previous cycle.
    pub fn sample_request(&self) -> (r: Request)
        ensures
            r == (Request::Read { register: REG_DATA, len: 8 }),
    {
        Request::Read { register: REG_DATA, len: 8 }
    }

    /// Compensate a burst read of registers 0xF7..0xFE with this driver's
    /// calibration.
    pub fn measure(&self, burst: &[u8; 8]) -> (r: Option<Measurement>)
        ensures
            r == measurement_of(self@.calib, burst@),
            r matches Some(m) ==> m.humidity_q22_10 <= HUMIDITY_FULL_SCALE,
    {
        self.calib.compensate(burst)
    }

    /// Start a soft reset: write the reset command, wait, and load the
    /// calibration again. The configuration registers keep their power-on
    /// defaults until the caller writes them again.
    pub fn reset(&self) -> (r: Session)
        ensures
            r@ == reset_of(self@),
            session_wf(r@),
    {
        Session { address: self.address, phase: Phase::SoftReset, configure: false, nvm: Vec::new() }
    }
}

// Laws.

/// The outcome of a session that receives these replies in turn; a
/// session that has not finished when they run out is returned as it stands.
pub open spec fn run(v: SessionView, replies: Seq<Seq<u8>>) -> Outcome
    decreases replies.len(),
{
    if replies.len() == 0 {
        Outcome::Continue(v)
    } else {
        match step(v, replies[0]) {
            Outcome::Continue(next) => run(next, replies.drop_first()),
            done => done,
        }
    }
}

/// Construction fails if and only if bit 0 (image update in progress) of
/// the first status read is set, whatever the other bits hold.
pub proof fn lemma_construction_fails_iff_image_update(address: Option<u8>, status: u8)
    ensures
        run(construction(address), seq![Seq::empty(), seq![status]]) is Failed <==> status % 2
            == 1,
{
    let replies = seq![Seq::<u8>::empty(), seq![status]];
    let s1 = next_phase(construction(address), Phase::Status);
    assert(step(construction(address), replies[0]) == Outcome::Continue(s1));
    assert(replies.drop_first() =~= seq![seq![status]]);
    assert(seq![seq![status]].drop_first() =~= Seq::<Seq<u8>>::empty());
    reveal_with_fuel(run, 3);
}

/// The status check is the only step at which a session fails.
pub proof fn lemma_only_status_check_fails(v: SessionView, reply: Seq<u8>)
    requires
        v.phase != Phase::Status,
    ensures
        !(step(v, reply) is Failed),
{
}

/// A construction whose status read shows no image update loads the
/// calibration from the bytes read and finishes after the three
/// configuration writes and their waits.
pub proof fn lemma_construction_loads_calibration(
    address: Option<u8>,
    status: u8,
    tp: Seq<u8>,
    h1: Seq<u8>,
    h: Seq<u8>,
)
    requires
        status % 2 == 0,
        tp.len() == 24,
        h1.len() == 1,
        h.len() == 6,
    ensures
        run(
            construction(address),
            seq![
                Seq::empty(), seq![status], tp, h1, h, Seq::empty(), Seq::empty(),
                Seq::empty(), Seq::empty(), Seq::empty(), Seq::empty(),
            ],
        ) == Outcome::Ready(
            DriverView {
                address: construction(address).address,
                calib: calibration_of(tp, h1 + h),
            },
        ),
{
    let e = Seq::<u8>::empty();
    let replies = seq![e, seq![status], tp, h1, h, e, e, e, e, e, e];
    let v0 = construction(address);
    let v1 = next_phase(v0, Phase::Status);
    let v2 = next_phase(v1, Phase::TpCalibration);
    let v3 = gathered(v2, Phase::H1Calibration, tp);
    let v4 = gathered(v3, Phase::HCalibration, h1);
    let v5 = gathered(v4, Phase::HumidityControl, h);
    let v6 = next_phase(v5, Phase::HumiditySettle);
    let v7 = next_phase(v6, Phase::MeasureControl);
    let v8 = next_phase(v7, Phase::MeasureSettle);
    let v9 = next_phase(v8, Phase::Config);
    let v10 = next_phase(v9, Phase::ConfigSettle);
    let nvm = tp + h1 + h;
    assert(v10.nvm =~= nvm);
    assert(nvm.subrange(0, 24) =~= tp);
    assert(nvm.subrange(24, 31) =~= h1 + h);
    let r = replies;
    assert(r.drop_first() =~= seq![seq![status], tp, h1, h, e, e, e, e, e, e]);
    assert(r.drop_first().drop_first() =~= seq![tp, h1, h, e, e, e, e, e, e]);
    assert(r.drop_first().drop_first().drop_first() =~= seq![h1, h, e, e, e, e, e, e]);
    assert(r.drop_first().drop_first().drop_first().drop_first() =~= seq![h, e, e, e, e, e, e]);
    assert(r.drop_first().drop_first().drop_first().drop_first().drop_first() =~= seq![
        e,
        e,
        e,
        e,
        e,
        e,
    ]);
    assert(r.drop_first().drop_first().drop_first().drop_first().drop_first().drop_first()
        =~= seq![e, e, e, e, e]);
    assert(r.drop_first().drop_first().drop_first().drop_first().drop_first().drop_first().drop_first()
        =~= seq![e, e, e, e]);
    assert(r.drop_first().drop_first().drop_first().drop_first().drop_first().drop_first().drop_first().drop_first()
        =~= seq![e, e, e]);
    assert(r.drop_first().drop_first().drop_first().drop_first().drop_first().drop_first().drop_first().drop_first().drop_first()
        =~= seq![e, e]);
    assert(r.drop_first().drop_first().drop_first().drop_first().drop_first().drop_first().drop_first().drop_first().drop_first().drop_first()
        =~= seq![e]);
    reveal_with_fuel(run, 12);
}

/// After a reset the driver holds exactly the calibration parsed from the
/// bytes read after the reset command: nothing of the calibration it held
/// before remains, and its address is kept.
pub proof fn lemma_reset_reloads_calibration(d: DriverView, tp: Seq<u8>, h1: Seq<u8>, h: Seq<u8>)
    requires
        tp.len() == 24,
        h1.len() == 1,
        h.len() == 6,
    ensures
        run(reset_of(d), seq![Seq::empty(), Seq::empty(), tp, h1, h]) == Outcome::Ready(
            DriverView { address: d.address, calib: calibration_of(tp, h1 + h) },
        ),
{
    let e = Seq::<u8>::empty();
    let r = seq![e, e, tp, h1, h];
    let nvm = tp + h1 + h;
    assert((e + tp + h1 + h) =~= nvm);
    assert(nvm.subrange(0, 24) =~= tp);
    assert(nvm.subrange(24, 31) =~= h1 + h);
    assert(r.drop_first() =~= seq![e, tp, h1, h]);
    assert(r.drop_first().drop_first() =~= seq![tp, h1, h]);
    assert(r.drop_first().drop_first().drop_first() =~= seq![h1, h]);
    assert(r.drop_first().drop_first().drop_first().drop_first() =~= seq![h]);
    reveal_with_fuel(run, 6);
}

} // verus!
