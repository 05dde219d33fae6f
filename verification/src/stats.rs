use vstd::prelude::*;
use vstd::string::StringExecFns;
use crate::text::{dec_seq, dec_string, fixed2_seq, fixed2_string};

verus! {

/// The on-screen stats block: ten ordered text sections, five label/value
/// pairs.  Labels sit at even indices and are written once at construction;
/// only the value sections (odd indices) are ever rewritten.
pub struct StatsDisplay {
    pub sections: Vec<String>,
}

impl StatsDisplay {
    /// Well-formed: exactly ten sections, with the five fixed labels in place.
    pub open spec fn wf(self) -> bool {
        &&& self.sections@.len() == 10
        &&& self.sections@[0]@ == "Cubes Count: "@
        &&& self.sections@[2]@ == "\nSpawning Rate: "@
        &&& self.sections@[4]@ == "\nFPS (raw): "@
        &&& self.sections@[6]@ == "\nFPS (SMA): "@
        &&& self.sections@[8]@ == "\nFPS (EMA): "@
    }

    /// The fixed layout at startup: labels set, every value section empty.
    pub fn new() -> (d: Self)
        ensures
            d.wf(),
            forall|i: int| 0 <= i < 10 && i % 2 == 1 ==> (#[trigger] d.sections@[i])@.len() == 0,
    {
        let mut sections: Vec<String> = Vec::new();
        sections.push(String::from_str("Cubes Count: "));
        sections.push(String::new());
        sections.push(String::from_str("\nSpawning Rate: "));
        sections.push(String::new());
        sections.push(String::from_str("\nFPS (raw): "));
        sections.push(String::new());
        sections.push(String::from_str("\nFPS (SMA): "));
        sections.push(String::new());
        sections.push(String::from_str("\nFPS (EMA): "));
        sections.push(String::new());
        StatsDisplay { sections }
    }

    /// One frame of the stats presenter.  The count section is rewritten only
    /// when the counter changed since the last observation; the rate section is
    /// rewritten unconditionally; each FPS section is rewritten with its sample
    /// at two decimal places when the sample is present, and retained unchanged
    /// (not blanked) when it is absent.  Labels are never touched.
    pub fn update(
        &mut self,
        count: u32,
        count_changed: bool,
        rate: u32,
        fps_raw: Option<u64>,
        fps_sma: Option<u64>,
        fps_ema: Option<u64>,
    )
        requires
            old(self).wf(),
        ensures
            final(self).wf(),
            final(self).sections@.len() == 10,
            forall|i: int|
                0 <= i < 10 && i % 2 == 0 ==> #[trigger] final(self).sections@[i] == old(
                    self,
                ).sections@[i],
            count_changed ==> final(self).sections@[1]@ == dec_seq(count as int),
            !count_changed ==> final(self).sections@[1] == old(self).sections@[1],
            final(self).sections@[3]@ == dec_seq(rate as int),
            fps_raw matches Some(h) ==> final(self).sections@[5]@ == fixed2_seq(h as int),
            fps_raw is None ==> final(self).sections@[5] == old(self).sections@[5],
            fps_sma matches Some(h) ==> final(self).sections@[7]@ == fixed2_seq(h as int),
            fps_sma is None ==> final(self).sections@[7] == old(self).sections@[7],
            fps_ema matches Some(h) ==> final(self).sections@[9]@ == fixed2_seq(h as int),
            fps_ema is None ==> final(self).sections@[9] == old(self).sections@[9],
    {
        if count_changed {
            self.sections[1] = dec_string(count as u64);
        }
        self.sections[3] = dec_string(rate as u64);
        if let Some(h) = fps_raw {
            self.sections[5] = fixed2_string(h);
        }
        if let Some(h) = fps_sma {
            self.sections[7] = fixed2_string(h);
        }
        if let Some(h) = fps_ema {
            self.sections[9] = fixed2_string(h);
        }
    }
}

} // verus!
