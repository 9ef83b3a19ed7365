//! Monitors (protocol outputs) and their video modes, from a snapshot of
//! what the compositor advertised for each output.
use vstd::prelude::*;
use std::collections::VecDeque;
use vstd::string::StringExecFns;

verus! {

/// One video mode an output advertises.
#[derive(Debug, Copy, Clone, PartialEq, Eq, Structural)]
pub struct Mode {
    pub width: i32,
    pub height: i32,
    /// Refresh rate in millihertz.
    pub refresh_rate: i32,
    pub is_current: bool,
}

/// What the compositor advertised for one output.
#[derive(Debug)]
pub struct OutputInfo {
    pub id: u32,
    pub model: String,
    pub make: String,
    pub x: i32,
    pub y: i32,
    pub scale_factor: i32,
    pub modes: Vec<Mode>,
}

/// A monitor; `info` is absent once the output is gone.
#[derive(Debug)]
pub struct MonitorHandle {
    pub info: Option<OutputInfo>,
}

/// A video mode of a monitor.
#[derive(Debug)]
pub struct VideoMode {
    pub width: u32,
    pub height: u32,
    pub bit_depth: u16,
    pub refresh_rate: u16,
    pub monitor: MonitorHandle,
}

/// A dimension as an unsigned value; the protocol never sends negative ones.
pub open spec fn dim(v: i32) -> u32 {
    if v < 0 { 0 } else { v as u32 }
}

/// Millihertz to hertz, rounded to the nearest integer (halves away from
/// zero) and clamped to the range of `u16`.
pub open spec fn refresh_hz(mhz: i32) -> u16 {
    let r = if mhz >= 0 { (mhz + 500) / 1000 } else { -((-mhz + 500) / 1000) };
    if r < 0 { 0 } else if r > u16::MAX { u16::MAX } else { r as u16 }
}

fn to_dim(v: i32) -> (r: u32)
    ensures
        r == dim(v),
{
    if v < 0 { 0 } else { v as u32 }
}

pub fn refresh_rate_hz(mhz: i32) -> (r: u16)
    ensures
        r == refresh_hz(mhz),
{
    let m = mhz as i64;
    let r: i64 = if m >= 0 { (m + 500) / 1000 } else { -((-m + 500) / 1000) };
    if r < 0 {
        0
    } else if r > 0xffff {
        0xffff
    } else {
        r as u16
    }
}

/// Index of the first mode marked current.
pub open spec fn current_mode(modes: Seq<Mode>) -> Option<int> {
    if exists|i: int| 0 <= i < modes.len() && modes[i].is_current {
        Some(choose|i: int| 0 <= i < modes.len() && modes[i].is_current
            && forall|j: int| 0 <= j < i ==> !modes[j].is_current)
    } else {
        None
    }
}

/// "model (make)".
fn model_and_make(model: &str, make: &str) -> (r: String)
    ensures
        r@ == model@ + " ("@ + make@ + ")"@,
{
    let mut r = String::from_str(model);
    r.append(" (");
    r.append(make);
    r.append(")");
    r
}

fn copy_modes(modes: &Vec<Mode>) -> (r: Vec<Mode>)
    ensures
        r@ == modes@,
{
    let mut out: Vec<Mode> = Vec::new();
    let mut i: usize = 0;
    while i < modes.len()
        invariant
            i <= modes@.len(),
            out@ == modes@.take(i as int),
        decreases modes@.len() - i,
    {
        out.push(modes[i]);
        i = i + 1;
        proof {
            assert(out@ =~= modes@.take(i as int));
        }
    }
    proof {
        assert(modes@.take(i as int) =~= modes@);
    }
    out
}

impl OutputInfo {
    pub open spec fn same(&self, o: &OutputInfo) -> bool {
        &&& self.id == o.id
        &&& self.model@ == o.model@
        &&& self.make@ == o.make@
        &&& self.x == o.x
        &&& self.y == o.y
        &&& self.scale_factor == o.scale_factor
        &&& self.modes@ == o.modes@
    }
}

impl MonitorHandle {
    /// A second handle on the same monitor, with the same snapshot.
    pub fn duplicate(&self) -> (r: MonitorHandle)
        ensures
            r.info.is_some() == self.info.is_some(),
            self.info.is_some() ==> r.info.unwrap().same(&self.info.unwrap()),
    {
        match &self.info {
            Some(i) => MonitorHandle {
                info: Some(OutputInfo {
                    id: i.id,
                    model: i.model.clone(),
                    make: i.make.clone(),
                    x: i.x,
                    y: i.y,
                    scale_factor: i.scale_factor,
                    modes: copy_modes(&i.modes),
                }),
            },
            None => MonitorHandle { info: None },
        }
    }

    /// "model (make)", while the output exists.
    pub fn name(&self) -> (r: Option<String>)
        ensures
            match self.info {
                Some(i) => r.is_some() && r.unwrap()@ == i.model@ + " ("@ + i.make@ + ")"@,
                None => r.is_none(),
            },
    {
        match &self.info {
            Some(i) => Some(model_and_make(i.model.as_str(), i.make.as_str())),
            None => None,
        }
    }

    /// The output's id, 0 once it is gone.
    pub fn native_identifier(&self) -> (r: u32)
        ensures
            r == (match self.info {
                Some(i) => i.id,
                None => 0,
            }),
    {
        match &self.info {
            Some(i) => i.id,
            None => 0,
        }
    }

    /// Size of the current mode; (0, 0) when there is none.
    pub fn size(&self) -> (r: (u32, u32))
        ensures
            r == (match self.info {
                Some(i) => match current_mode(i.modes@) {
                    Some(k) => (dim(i.modes@[k].width), dim(i.modes@[k].height)),
                    None => (0u32, 0u32),
                },
                None => (0u32, 0u32),
            }),
    {
        match &self.info {
            Some(info) => {
                let mut k: usize = 0;
                proof {
                    assert(self.info.unwrap() == *info);
                }
                while k < info.modes.len()
                    invariant
                        self.info == Some(*info),
                        k <= info.modes@.len(),
                        forall|j: int| 0 <= j < k ==> !info.modes@[j].is_current,
                    decreases info.modes@.len() - k,
                {
                    let m = info.modes[k];
                    if m.is_current {
                        proof {
                            let ms = info.modes@;
                            assert(0 <= k < ms.len() && ms[k as int].is_current
                                && forall|j: int| 0 <= j < k ==> !ms[j].is_current);
                            let c = current_mode(ms).unwrap();
                            assert(0 <= c < ms.len() && ms[c].is_current && forall|j: int| 0 <= j < c ==> !ms[j].is_current);
                            if c < k {
                                assert(!ms[c].is_current);
                            } else if c > k {
                                assert(!ms[k as int].is_current);
                            }
                            assert(c == k);
                        }
                        return (to_dim(m.width), to_dim(m.height));
                    }
                    k = k + 1;
                }
                proof {
                    assert(!(exists|i: int| 0 <= i < info.modes@.len() && info.modes@[i].is_current));
                }
                (0, 0)
            },
            None => (0, 0),
        }
    }

    /// Position of the output in the compositor's space; (0, 0) once it is gone.
    pub fn position(&self) -> (r: (i32, i32))
        ensures
            r == (match self.info {
                Some(i) => (i.x, i.y),
                None => (0i32, 0i32),
            }),
    {
        match &self.info {
            Some(i) => (i.x, i.y),
            None => (0, 0),
        }
    }

    /// The output's integer scale factor; 1 once it is gone.
    pub fn scale_factor(&self) -> (r: i32)
        ensures
            r == (match self.info {
                Some(i) => i.scale_factor,
                None => 1,
            }),
    {
        match &self.info {
            Some(i) => i.scale_factor,
            None => 1,
        }
    }

    /// Every advertised mode, in order, with 32-bit depth and the refresh
    /// rate in whole hertz.
    pub fn video_modes(&self) -> (r: Vec<VideoMode>)
        ensures
            r@.len() == (match self.info {
                Some(i) => i.modes@.len(),
                None => 0,
            }),
            self.info matches Some(i) ==> forall|k: int| 0 <= k < r@.len() ==> {
                let v = #[trigger] r@[k];
                &&& v.width == dim(i.modes@[k].width)
                &&& v.height == dim(i.modes@[k].height)
                &&& v.bit_depth == 32
                &&& v.refresh_rate == refresh_hz(i.modes@[k].refresh_rate)
                &&& v.monitor.info.is_some()
                &&& v.monitor.info.unwrap().same(&i)
            },
    {
        let mut out: Vec<VideoMode> = Vec::new();
        match &self.info {
            Some(info) => {
                let mut k: usize = 0;
                proof {
                    assert(self.info.unwrap() == *info);
                }
                while k < info.modes.len()
                    invariant
                        self.info == Some(*info),
                        k <= info.modes@.len(),
                        out@.len() == k,
                        forall|j: int| 0 <= j < k ==> {
                            let v = #[trigger] out@[j];
                            &&& v.width == dim(info.modes@[j].width)
                            &&& v.height == dim(info.modes@[j].height)
                            &&& v.bit_depth == 32
                            &&& v.refresh_rate == refresh_hz(info.modes@[j].refresh_rate)
                            &&& v.monitor.info.is_some()
                            &&& v.monitor.info.unwrap().same(info)
                        },
                    decreases info.modes@.len() - k,
                {
                    let m = info.modes[k];
                    let v = VideoMode {
                        width: to_dim(m.width),
                        height: to_dim(m.height),
                        bit_depth: 32,
                        refresh_rate: refresh_rate_hz(m.refresh_rate),
                        monitor: self.duplicate(),
                    };
                    let ghost before = out@;
                    out.push(v);
                    proof {
                        assert forall|j: int| 0 <= j < k + 1 implies {
                            let v = #[trigger] out@[j];
                            &&& v.width == dim(info.modes@[j].width)
                            &&& v.height == dim(info.modes@[j].height)
                            &&& v.bit_depth == 32
                            &&& v.refresh_rate == refresh_hz(info.modes@[j].refresh_rate)
                            &&& v.monitor.info.is_some()
                            &&& v.monitor.info.unwrap().same(info)
                        } by {
                            if j < k {
                                assert(out@[j] == before[j]);
                            }
                        }
                    }
                    k = k + 1;
                }
            },
            None => {},
        }
        out
    }
}

impl VideoMode {
    pub fn size(&self) -> (r: (u32, u32))
        ensures
            r == (self.width, self.height),
    {
        (self.width, self.height)
    }

    pub fn bit_depth(&self) -> (r: u16)
        ensures
            r == self.bit_depth,
    {
        self.bit_depth
    }

    pub fn refresh_rate(&self) -> (r: u16)
        ensures
            r == self.refresh_rate,
    {
        self.refresh_rate
    }

    /// The monitor this mode belongs to.
    pub fn monitor(&self) -> (r: MonitorHandle)
        ensures
            r.info.is_some() == self.monitor.info.is_some(),
            self.monitor.info.is_some() ==> r.info.unwrap().same(&self.monitor.info.unwrap()),
    {
        self.monitor.duplicate()
    }
}

/// The first advertised output.
pub fn primary_monitor(outputs: &Vec<MonitorHandle>) -> (r: MonitorHandle)
    requires
        outputs@.len() > 0,
    ensures
        r.info.is_some() == outputs@[0].info.is_some(),
        outputs@[0].info.is_some() ==> r.info.unwrap().same(&outputs@[0].info.unwrap()),
{
    outputs[0].duplicate()
}

/// Every advertised output, in order.
pub fn available_monitors(outputs: &Vec<MonitorHandle>) -> (r: VecDeque<MonitorHandle>)
    ensures
        r@.len() == outputs@.len(),
        forall|k: int| 0 <= k < outputs@.len() ==> {
            &&& (#[trigger] r@[k]).info.is_some() == outputs@[k].info.is_some()
            &&& outputs@[k].info.is_some() ==> r@[k].info.unwrap().same(&outputs@[k].info.unwrap())
        },
{
    let mut out: VecDeque<MonitorHandle> = VecDeque::new();
    let mut k: usize = 0;
    while k < outputs.len()
        invariant
            k <= outputs@.len(),
            out@.len() == k,
            forall|j: int| 0 <= j < k ==> {
                &&& (#[trigger] out@[j]).info.is_some() == outputs@[j].info.is_some()
                &&& outputs@[j].info.is_some() ==> out@[j].info.unwrap().same(&outputs@[j].info.unwrap())
            },
        decreases outputs@.len() - k,
    {
        out.push_back(outputs[k].duplicate());
        k = k + 1;
    }
    out
}

} // verus!
