//! Choice of the run mode from the first command-line argument.

use vstd::prelude::*;

use crate::text::str_equals;

verus! {

/// Run modes: the dashboard, or one phase in command-line mode.
#[derive(Clone, Copy, PartialEq, Eq, Debug)]
pub enum PhaseChoice {
    Tui,
    Phase1,
    Phase2,
    Phase3,
    Phase4,
    Phase5,
    Phase6,
    Phase7,
    Phase8,
    Unknown,
}

pub open spec fn choice_of(arg: Option<Seq<char>>) -> PhaseChoice {
    match arg {
        None => PhaseChoice::Tui,
        Some(a) => if a == "tui"@ {
            PhaseChoice::Tui
        } else if a == "phase1"@ {
            PhaseChoice::Phase1
        } else if a == "phase2"@ {
            PhaseChoice::Phase2
        } else if a == "phase3"@ {
            PhaseChoice::Phase3
        } else if a == "phase4"@ {
            PhaseChoice::Phase4
        } else if a == "phase5"@ {
            PhaseChoice::Phase5
        } else if a == "phase6"@ || a == "bonus"@ {
            PhaseChoice::Phase6
        } else if a == "phase7"@ || a == "stress"@ {
            PhaseChoice::Phase7
        } else if a == "phase8"@ || a == "v012"@ {
            PhaseChoice::Phase8
        } else {
            PhaseChoice::Unknown
        },
    }
}

/// No argument or `tui` opens the dashboard; `phase1`..`phase8` (with the
/// aliases `bonus`, `stress`, `v012`) run one phase.
pub fn select_phase(arg: Option<&str>) -> (r: PhaseChoice)
    ensures
        r == choice_of(match arg {
            None => None,
            Some(a) => Some(a@),
        }),
        arg is None ==> r == PhaseChoice::Tui,
        arg matches Some(a) && a@ == "tui"@ ==> r == PhaseChoice::Tui,
        arg matches Some(a) && a@ == "phase1"@ ==> r == PhaseChoice::Phase1,
        arg matches Some(a) && a@ == "phase2"@ ==> r == PhaseChoice::Phase2,
        arg matches Some(a) && a@ == "phase3"@ ==> r == PhaseChoice::Phase3,
        arg matches Some(a) && a@ == "phase4"@ ==> r == PhaseChoice::Phase4,
        arg matches Some(a) && a@ == "phase5"@ ==> r == PhaseChoice::Phase5,
        arg matches Some(a) && a@ == "phase6"@ ==> r == PhaseChoice::Phase6,
        arg matches Some(a) && a@ == "bonus"@ ==> r == PhaseChoice::Phase6,
        arg matches Some(a) && a@ == "phase7"@ ==> r == PhaseChoice::Phase7,
        arg matches Some(a) && a@ == "stress"@ ==> r == PhaseChoice::Phase7,
        arg matches Some(a) && a@ == "phase8"@ ==> r == PhaseChoice::Phase8,
        arg matches Some(a) && a@ == "v012"@ ==> r == PhaseChoice::Phase8,
{
    proof {
        lemma_arguments_distinct();
    }
    match arg {
        None => PhaseChoice::Tui,
        Some(a) => {
            if str_equals(a, "tui") {
                PhaseChoice::Tui
            } else if str_equals(a, "phase1") {
                PhaseChoice::Phase1
            } else if str_equals(a, "phase2") {
                PhaseChoice::Phase2
            } else if str_equals(a, "phase3") {
                PhaseChoice::Phase3
            } else if str_equals(a, "phase4") {
                PhaseChoice::Phase4
            } else if str_equals(a, "phase5") {
                PhaseChoice::Phase5
            } else if str_equals(a, "phase6") || str_equals(a, "bonus") {
                PhaseChoice::Phase6
            } else if str_equals(a, "phase7") || str_equals(a, "stress") {
                PhaseChoice::Phase7
            } else if str_equals(a, "phase8") || str_equals(a, "v012") {
                PhaseChoice::Phase8
            } else {
                PhaseChoice::Unknown
            }
        },
    }
}

proof fn lemma_arguments_distinct()
    ensures
        "tui"@ != "phase1"@, "tui"@ != "phase2"@, "tui"@ != "phase3"@, "tui"@ != "phase4"@,
        "tui"@ != "phase5"@, "tui"@ != "phase6"@, "tui"@ != "bonus"@, "tui"@ != "phase7"@,
        "tui"@ != "stress"@, "tui"@ != "phase8"@, "tui"@ != "v012"@,
        "phase1"@ != "phase2"@, "phase1"@ != "phase3"@, "phase1"@ != "phase4"@, "phase1"@ != "phase5"@,
        "phase1"@ != "phase6"@, "phase1"@ != "bonus"@, "phase1"@ != "phase7"@, "phase1"@ != "stress"@,
        "phase1"@ != "phase8"@, "phase1"@ != "v012"@,
        "phase2"@ != "phase3"@, "phase2"@ != "phase4"@, "phase2"@ != "phase5"@, "phase2"@ != "phase6"@,
        "phase2"@ != "bonus"@, "phase2"@ != "phase7"@, "phase2"@ != "stress"@, "phase2"@ != "phase8"@,
        "phase2"@ != "v012"@,
        "phase3"@ != "phase4"@, "phase3"@ != "phase5"@, "phase3"@ != "phase6"@, "phase3"@ != "bonus"@,
        "phase3"@ != "phase7"@, "phase3"@ != "stress"@, "phase3"@ != "phase8"@, "phase3"@ != "v012"@,
        "phase4"@ != "phase5"@, "phase4"@ != "phase6"@, "phase4"@ != "bonus"@, "phase4"@ != "phase7"@,
        "phase4"@ != "stress"@, "phase4"@ != "phase8"@, "phase4"@ != "v012"@,
        "phase5"@ != "phase6"@, "phase5"@ != "bonus"@, "phase5"@ != "phase7"@, "phase5"@ != "stress"@,
        "phase5"@ != "phase8"@, "phase5"@ != "v012"@,
        "phase6"@ != "phase7"@, "phase6"@ != "stress"@, "phase6"@ != "phase8"@, "phase6"@ != "v012"@,
        "bonus"@ != "phase7"@, "bonus"@ != "stress"@, "bonus"@ != "phase8"@, "bonus"@ != "v012"@,
        "phase7"@ != "phase8"@, "phase7"@ != "v012"@,
        "stress"@ != "phase8"@, "stress"@ != "v012"@,
{
    reveal_strlit("tui");
    reveal_strlit("phase1");
    reveal_strlit("phase2");
    reveal_strlit("phase3");
    reveal_strlit("phase4");
    reveal_strlit("phase5");
    reveal_strlit("phase6");
    reveal_strlit("phase7");
    reveal_strlit("phase8");
    reveal_strlit("bonus");
    reveal_strlit("stress");
    reveal_strlit("v012");
    assert("phase1"@[5] != "phase2"@[5]);
    assert("phase1"@[5] != "phase3"@[5]);
    assert("phase1"@[5] != "phase4"@[5]);
    assert("phase1"@[5] != "phase5"@[5]);
    assert("phase1"@[5] != "phase6"@[5]);
    assert("phase1"@[5] != "phase7"@[5]);
    assert("phase1"@[5] != "phase8"@[5]);
    assert("phase2"@[5] != "phase3"@[5]);
    assert("phase2"@[5] != "phase4"@[5]);
    assert("phase2"@[5] != "phase5"@[5]);
    assert("phase2"@[5] != "phase6"@[5]);
    assert("phase2"@[5] != "phase7"@[5]);
    assert("phase2"@[5] != "phase8"@[5]);
    assert("phase3"@[5] != "phase4"@[5]);
    assert("phase3"@[5] != "phase5"@[5]);
    assert("phase3"@[5] != "phase6"@[5]);
    assert("phase3"@[5] != "phase7"@[5]);
    assert("phase3"@[5] != "phase8"@[5]);
    assert("phase4"@[5] != "phase5"@[5]);
    assert("phase4"@[5] != "phase6"@[5]);
    assert("phase4"@[5] != "phase7"@[5]);
    assert("phase4"@[5] != "phase8"@[5]);
    assert("phase5"@[5] != "phase6"@[5]);
    assert("phase5"@[5] != "phase7"@[5]);
    assert("phase5"@[5] != "phase8"@[5]);
    assert("phase6"@[5] != "phase7"@[5]);
    assert("phase6"@[5] != "phase8"@[5]);
    assert("phase7"@[5] != "phase8"@[5]);
    assert("bonus"@[0] != "stress"@[0]);
    assert("bonus"@[0] != "phase1"@[0]);
    assert("stress"@[0] != "phase1"@[0]);
    assert("v012"@[0] != "phase1"@[0]);
    assert("tui"@.len() == 3 && "phase1"@.len() == 6 && "phase2"@.len() == 6 && "phase3"@.len() == 6);
    assert("phase4"@.len() == 6 && "phase5"@.len() == 6 && "phase6"@.len() == 6 && "phase7"@.len() == 6);
    assert("phase8"@.len() == 6 && "bonus"@.len() == 5 && "stress"@.len() == 6 && "v012"@.len() == 4);
    assert("stress"@[0] != "phase2"@[0]);
}

/// Every documented argument selects its own run mode: no argument or `tui`
/// the dashboard, `phaseN` phase N for N in 1..=8, and the aliases `bonus`,
/// `stress`, `v012` phases 6, 7 and 8 (eight distinct variants, so no two
/// phase arguments run the same phase).
pub proof fn law_documented_arguments()
    ensures
        choice_of(None) == PhaseChoice::Tui,
        choice_of(Some("tui"@)) == PhaseChoice::Tui,
        choice_of(Some("phase1"@)) == PhaseChoice::Phase1,
        choice_of(Some("phase2"@)) == PhaseChoice::Phase2,
        choice_of(Some("phase3"@)) == PhaseChoice::Phase3,
        choice_of(Some("phase4"@)) == PhaseChoice::Phase4,
        choice_of(Some("phase5"@)) == PhaseChoice::Phase5,
        choice_of(Some("phase6"@)) == PhaseChoice::Phase6,
        choice_of(Some("bonus"@)) == PhaseChoice::Phase6,
        choice_of(Some("phase7"@)) == PhaseChoice::Phase7,
        choice_of(Some("stress"@)) == PhaseChoice::Phase7,
        choice_of(Some("phase8"@)) == PhaseChoice::Phase8,
        choice_of(Some("v012"@)) == PhaseChoice::Phase8,
{
    lemma_arguments_distinct();
}

} // verus!
