//! The research system: starts and finishes research of a player entity in its planet's lab.
use vstd::prelude::*;

use crate::bytes::{i64_at, read_i64_at};
use crate::components::{Planet, Research, Resources};
use crate::formulas::{research_cost_for_level, research_cost_spec};

verus! {

/// Why the research system refuses.
#[derive(Clone, Copy, Debug, PartialEq, Eq, Structural)]
pub enum ResearchError {
    InvalidArgs,
    InvalidTech,
    LabTooLow,
    QueueBusy,
    NoResearch,
    NotFinished,
    InsufficientMetal,
    InsufficientCrystal,
    InsufficientDeuterium,
}

/// The lab level technology `idx` needs; 255 for an unknown technology.
pub open spec fn lab_requirement_spec(idx: u8) -> u8 {
    match idx {
        0 | 1 | 4 => 1,
        5 => 3,
        2 => 5,
        3 => 7,
        6 => 10,
        _ => 255,
    }
}

/// The lab level technology `idx` needs.
pub fn lab_requirement(idx: u8) -> (r: u8)
    ensures
        r == lab_requirement_spec(idx),
{
    match idx {
        0 | 1 | 4 => 1,
        5 => 3,
        2 => 5,
        3 => 7,
        6 => 10,
        _ => 255,
    }
}

/// Seconds to research up to `next_level` with a lab at `lab_level`: half an hour per level,
/// divided by the lab level, at least one.
pub open spec fn research_seconds_spec(next_level: u8, lab_level: u8) -> int {
    let s = (next_level * 1800) / (if lab_level < 1 { 1 } else { lab_level as int });
    if s < 1 {
        1
    } else {
        s
    }
}

/// Seconds to research up to `next_level` with a lab at `lab_level`.
pub fn research_seconds(next_level: u8, lab_level: u8) -> (r: i64)
    ensures
        r == research_seconds_spec(next_level, lab_level),
{
    let lab: u64 = if lab_level < 1 { 1 } else { lab_level as u64 };
    let s = (next_level as u64 * 1800) / lab;
    if s < 1 {
        1
    } else {
        s as i64
    }
}

/// What the research system leaves of the resources and the research, and the answer, for
/// instruction `ins` (0 start, 1 finish) on technology `idx` at `now`.
pub open spec fn research_spec(p: Planet, res: Resources, rs: Research, ins: u8, idx: u8, now: i64) -> (Resources, Research, Result<(), ResearchError>) {
    if ins == 0 {
        let current = rs.spec_level(idx);
        let next = current.saturating_add(1);
        let (cm, cc, cd) = research_cost_spec(idx, current);
        if idx > 6 {
            (res, rs, Err(ResearchError::InvalidTech))
        } else if p.research_lab < 1 {
            (res, rs, Err(ResearchError::LabTooLow))
        } else if rs.queue_item != 255 {
            (res, rs, Err(ResearchError::QueueBusy))
        } else if p.research_lab < lab_requirement_spec(idx) {
            (res, rs, Err(ResearchError::LabTooLow))
        } else if res.metal < cm {
            (res, rs, Err(ResearchError::InsufficientMetal))
        } else if res.crystal < cc {
            (res, rs, Err(ResearchError::InsufficientCrystal))
        } else if res.deuterium < cd {
            (res, rs, Err(ResearchError::InsufficientDeuterium))
        } else {
            (
                Resources { metal: (res.metal - cm) as u64, crystal: (res.crystal - cc) as u64, deuterium: (res.deuterium - cd) as u64, ..res },
                Research {
                    queue_item: idx,
                    queue_target: next,
                    research_finish_ts: (now + research_seconds_spec(next, p.research_lab)) as i64,
                    ..rs
                },
                Ok(()),
            )
        }
    } else if ins == 1 {
        if rs.queue_item == 255 {
            (res, rs, Err(ResearchError::NoResearch))
        } else if now < rs.research_finish_ts {
            (res, rs, Err(ResearchError::NotFinished))
        } else {
            (
                res,
                Research { queue_item: 255, queue_target: 0, research_finish_ts: 0, ..rs.with_level(rs.queue_item, rs.queue_target) },
                Ok(()),
            )
        }
    } else {
        (res, rs, Err(ResearchError::InvalidArgs))
    }
}

/// Runs the research instruction the arguments hold: the instruction byte, the technology, then
/// the time (little-endian).
pub fn execute(planet: &Planet, resources: &mut Resources, research: &mut Research, args: &[u8]) -> (r: Result<(), ResearchError>)
    requires
        args.len() >= 10 && args[0] == 0 ==> i64_at(args@, 2) + research_seconds_spec(
            old(research).spec_level(args[1]).saturating_add(1),
            planet.research_lab,
        ) <= i64::MAX,
    ensures
        args.len() < 10 ==> r == Err::<(), ResearchError>(ResearchError::InvalidArgs) && *final(resources) == *old(resources)
            && *final(research) == *old(research),
        args.len() >= 10 ==> (*final(resources), *final(research), r) == research_spec(
            *planet,
            *old(resources),
            *old(research),
            args[0],
            args[1],
            i64_at(args@, 2),
        ),
{
    if args.len() < 10 {
        return Err(ResearchError::InvalidArgs);
    }
    let instruction = args[0];
    let idx = args[1];
    let now = read_i64_at(args, 2);
    if instruction == 0 {
        if idx > 6 {
            return Err(ResearchError::InvalidTech);
        }
        if planet.research_lab < 1 {
            return Err(ResearchError::LabTooLow);
        }
        if research.queue_item != 255 {
            return Err(ResearchError::QueueBusy);
        }
        if planet.research_lab < lab_requirement(idx) {
            return Err(ResearchError::LabTooLow);
        }
        let current = research.level(idx);
        let next = current.saturating_add(1);
        let (cm, cc, cd) = research_cost_for_level(idx, current);
        if resources.metal < cm {
            return Err(ResearchError::InsufficientMetal);
        }
        if resources.crystal < cc {
            return Err(ResearchError::InsufficientCrystal);
        }
        if resources.deuterium < cd {
            return Err(ResearchError::InsufficientDeuterium);
        }
        resources.metal = resources.metal - cm;
        resources.crystal = resources.crystal - cc;
        resources.deuterium = resources.deuterium - cd;
        research.queue_item = idx;
        research.queue_target = next;
        research.research_finish_ts = now + research_seconds(next, planet.research_lab);
        Ok(())
    } else if instruction == 1 {
        if research.queue_item == 255 {
            return Err(ResearchError::NoResearch);
        }
        if now < research.research_finish_ts {
            return Err(ResearchError::NotFinished);
        }
        let idx = research.queue_item;
        let target = research.queue_target;
        research.set_level(idx, target);
        research.queue_item = 255;
        research.queue_target = 0;
        research.research_finish_ts = 0;
        Ok(())
    } else {
        Err(ResearchError::InvalidArgs)
    }
}

} // verus!
