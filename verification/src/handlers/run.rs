//! The control panel of a run: its location, its party, its leader and its end.

use vstd::prelude::*;

use crate::db::models::Run;
use crate::embeds::run::{control_panel, control_panel_screen};
use crate::handlers::headcount::{
    own_or_empty, text_or_empty, LOCATION_HINT, ORGANIZERS_ONLY, PARTY_HINT,
};
use crate::handlers::inputs::{input_value, typed_text, typed_value, TypedInput};
use crate::handlers::routing::{RunClick, RunForm};
use crate::mention::{user, user_i64};
use crate::text::{cat3, dec, dec_i32, opt_view, own, trimmed};
use crate::ui::{
    Form, FormView, Input, InputView, Menu, MenuKind, MenuKindView, MenuView, Screen, ScreenView,
};

verus! {

/// What is said of a run that is not there any more.
pub const RUN_ENDED: &'static str = "This run has ended.";

/// What is said to those who left the server.
pub const NO_MEMBER: &'static str = "You're no longer a member of this server.";

// ----- clicks ---------------------------------------------------------------------------

/// What is known so far of a click on a run. What is not known is `None`.
pub struct RunFacts {
    /// The run, or that there is none.
    pub run: Option<Option<Run>>,
    /// Whether who clicked may organize it.
    pub organizer: Option<bool>,
    /// Who was picked in the menu.
    pub picked: Option<i64>,
    /// Whether the gates of member-led raids hold for it.
    pub self_organized: bool,
}

/// What to do about a click on a run.
#[derive(Debug)]
pub enum RunStep {
    /// Look up the run.
    LoadRun,
    /// Find out whether who clicked may organize it.
    AskOrganizer,
    /// Say this, and do nothing.
    Refuse(String),
    /// Do nothing.
    Nothing,
    /// Show this to who clicked.
    Panel(Screen),
    /// Open this form.
    Open(Form),
    /// Ask for the new leader with this menu.
    PickLeader(Menu),
    /// Make them the leader; where the second is true, the slot passes to them too.
    Transfer(i64, bool),
    /// End the run.
    End,
}

/// What to do about a click on a run, over views.
pub ghost enum RunStepView {
    LoadRun,
    AskOrganizer,
    Refuse(Seq<char>),
    Nothing,
    Panel(ScreenView),
    Open(FormView),
    PickLeader(MenuView),
    Transfer(i64, bool),
    End,
}

impl View for RunStep {
    type V = RunStepView;

    open spec fn view(&self) -> RunStepView {
        match self {
            RunStep::LoadRun => RunStepView::LoadRun,
            RunStep::AskOrganizer => RunStepView::AskOrganizer,
            RunStep::Refuse(t) => RunStepView::Refuse(t@),
            RunStep::Nothing => RunStepView::Nothing,
            RunStep::Panel(s) => RunStepView::Panel(s@),
            RunStep::Open(f) => RunStepView::Open(f@),
            RunStep::PickLeader(m) => RunStepView::PickLeader(m@),
            RunStep::Transfer(u, b) => RunStepView::Transfer(*u, *b),
            RunStep::End => RunStepView::End,
        }
    }
}

/// The form that asks for the location.
pub open spec fn location_form(run: Run, id: i32) -> FormView {
    FormView::new("run:"@ + dec(id as int) + ":loc"@, "Set run location"@).input(
        InputView::short("Location"@, "location"@).placeholder(LOCATION_HINT@).value(
            text_or_empty(run.location),
        ).required(false).max_length(200),
    )
}

/// The form that asks for the location.
pub fn build_location_form(run: &Run, id: i32) -> (r: Form)
    ensures
        r@ == location_form(*run, id),
{
    Form::new(&cat3("run:", &dec_i32(id), ":loc"), "Set run location").input(
        Input::short("Location", "location").placeholder(LOCATION_HINT).value(
            &own_or_empty(&run.location),
        ).required(false).max_length(200),
    )
}

/// The form that asks for the party.
pub open spec fn party_form(run: Run, id: i32) -> FormView {
    FormView::new("run:"@ + dec(id as int) + ":party"@, "Set party composition"@).input(
        InputView::long("Party"@, "party"@).placeholder(PARTY_HINT@).value(
            text_or_empty(run.party),
        ).required(false).max_length(1000),
    )
}

/// The form that asks for the party.
pub fn build_party_form(run: &Run, id: i32) -> (r: Form)
    ensures
        r@ == party_form(*run, id),
{
    Form::new(&cat3("run:", &dec_i32(id), ":party"), "Set party composition").input(
        Input::long("Party", "party").placeholder(PARTY_HINT).value(
            &own_or_empty(&run.party),
        ).required(false).max_length(1000),
    )
}

/// The menu that asks for the new leader.
pub open spec fn leader_menu(id: i32) -> MenuView {
    MenuView::new(
        "run:"@ + dec(id as int) + ":xfer"@,
        MenuKindView::Users(None),
        "Pick the new leader"@,
        1,
        1,
    )
}

/// The menu that asks for the new leader.
pub fn build_leader_menu(id: i32) -> (r: Menu)
    ensures
        r@ == leader_menu(id),
{
    Menu::new(
        &cat3("run:", &dec_i32(id), ":xfer"),
        MenuKind::Users(None),
        "Pick the new leader",
        1,
        1,
    )
}

/// What to do about a click on a run: the run must be there, who clicked must be
/// allowed to organize it, and who leads it already cannot be made its leader.
pub open spec fn run_step_of(f: RunFacts, id: i32, click: RunClick) -> RunStepView {
    match f.run {
        None => RunStepView::LoadRun,
        Some(None) => RunStepView::Refuse(RUN_ENDED@),
        Some(Some(run)) => match f.organizer {
            None => RunStepView::AskOrganizer,
            Some(false) => RunStepView::Refuse(ORGANIZERS_ONLY@),
            Some(true) => match click {
                RunClick::ControlPanel => RunStepView::Panel(control_panel_screen(run)),
                RunClick::Location => RunStepView::Open(location_form(run, id)),
                RunClick::Party => RunStepView::Open(party_form(run, id)),
                RunClick::Transfer => RunStepView::PickLeader(leader_menu(id)),
                RunClick::TransferPick => match f.picked {
                    None => RunStepView::Nothing,
                    Some(u) => if u == run.leader_user_id {
                        RunStepView::Refuse("That's already the leader — pick someone else."@)
                    } else {
                        RunStepView::Transfer(u, f.self_organized)
                    },
                },
                RunClick::End => RunStepView::End,
            },
        },
    }
}

/// What to do next about a click on a run.
pub fn run_step(f: &RunFacts, id: i32, click: RunClick) -> (r: RunStep)
    ensures
        r@ == run_step_of(*f, id, click),
{
    let run = match &f.run {
        None => {
            return RunStep::LoadRun;
        },
        Some(None) => {
            return RunStep::Refuse(own(RUN_ENDED));
        },
        Some(Some(run)) => run,
    };
    match f.organizer {
        None => {
            return RunStep::AskOrganizer;
        },
        Some(o) => {
            if !o {
                return RunStep::Refuse(own(ORGANIZERS_ONLY));
            }
        },
    }
    match click {
        RunClick::ControlPanel => RunStep::Panel(control_panel(run)),
        RunClick::Location => RunStep::Open(build_location_form(run, id)),
        RunClick::Party => RunStep::Open(build_party_form(run, id)),
        RunClick::Transfer => RunStep::PickLeader(build_leader_menu(id)),
        RunClick::TransferPick => match f.picked {
            None => RunStep::Nothing,
            Some(u) => if u == run.leader_user_id {
                RunStep::Refuse(own("That's already the leader — pick someone else."))
            } else {
                RunStep::Transfer(u, f.self_organized)
            },
        },
        RunClick::End => RunStep::End,
    }
}

/// Whatever is clicked on a run that is over, the answer is that it has ended; and
/// whatever is clicked by someone who may not organize it, nothing is shown,
/// changed or ended.
pub proof fn runs_obey_organizers_only(f: RunFacts, id: i32, click: RunClick)
    requires
        f.run is Some,
        f.run->0 is None || f.organizer == Some(false),
    ensures
        run_step_of(f, id, click) == RunStepView::Refuse(
            if f.run->0 is None {
                RUN_ENDED@
            } else {
                ORGANIZERS_ONLY@
            },
        ),
{
}

// ----- forms -----------------------------------------------------------------------------

/// What is known so far of a form of a run that was sent. What is not known is
/// `None`.
pub struct RunFormFacts {
    /// The run, or that there is none.
    pub run: Option<Option<Run>>,
    /// Whether who sent it may organize the run, or that they left the server.
    pub organizer: Option<Option<bool>>,
    /// What was typed.
    pub inputs: Vec<TypedInput>,
}

/// What to do about a form of a run that was sent.
#[derive(Debug)]
pub enum RunFormStep {
    /// Look up the run.
    LoadRun,
    /// Find out whether who sent it may organize the run.
    AskOrganizer,
    /// Say this, and do nothing.
    Refuse(String),
    /// Set the location, or clear it, and say this.
    SetLocation(Option<String>, String),
    /// Set the party, or clear it, and say this.
    SetParty(Option<String>, String),
}

/// What to do about a form of a run that was sent, over views.
pub ghost enum RunFormStepView {
    LoadRun,
    AskOrganizer,
    Refuse(Seq<char>),
    SetLocation(Option<Seq<char>>, Seq<char>),
    SetParty(Option<Seq<char>>, Seq<char>),
}

impl View for RunFormStep {
    type V = RunFormStepView;

    open spec fn view(&self) -> RunFormStepView {
        match self {
            RunFormStep::LoadRun => RunFormStepView::LoadRun,
            RunFormStep::AskOrganizer => RunFormStepView::AskOrganizer,
            RunFormStep::Refuse(t) => RunFormStepView::Refuse(t@),
            RunFormStep::SetLocation(v, t) => RunFormStepView::SetLocation(opt_view(*v), t@),
            RunFormStep::SetParty(v, t) => RunFormStepView::SetParty(opt_view(*v), t@),
        }
    }
}

/// What to do about a form of a run that was sent. An empty text clears the column.
pub open spec fn run_form_step_of(f: RunFormFacts, form: RunForm) -> RunFormStepView {
    match f.run {
        None => RunFormStepView::LoadRun,
        Some(None) => RunFormStepView::Refuse(RUN_ENDED@),
        Some(Some(_)) => match f.organizer {
            None => RunFormStepView::AskOrganizer,
            Some(None) => RunFormStepView::Refuse(NO_MEMBER@),
            Some(Some(false)) => RunFormStepView::Refuse(ORGANIZERS_ONLY@),
            Some(Some(true)) => match form {
                RunForm::Location => {
                    let v = typed_value(f.inputs@, "location"@);
                    RunFormStepView::SetLocation(
                        v,
                        if v is Some {
                            "📍 Location updated."@
                        } else {
                            "📍 Location cleared."@
                        },
                    )
                },
                RunForm::Party => {
                    let v = typed_value(f.inputs@, "party"@);
                    RunFormStepView::SetParty(
                        v,
                        if v is Some {
                            "📝 Party updated."@
                        } else {
                            "📝 Party cleared."@
                        },
                    )
                },
            },
        },
    }
}

/// What to do next about a form of a run that was sent.
pub fn run_form_step(f: &RunFormFacts, form: RunForm) -> (r: RunFormStep)
    ensures
        r@ == run_form_step_of(*f, form),
{
    match &f.run {
        None => {
            return RunFormStep::LoadRun;
        },
        Some(None) => {
            return RunFormStep::Refuse(own(RUN_ENDED));
        },
        Some(Some(_)) => {},
    }
    match f.organizer {
        None => {
            return RunFormStep::AskOrganizer;
        },
        Some(None) => {
            return RunFormStep::Refuse(own(NO_MEMBER));
        },
        Some(Some(o)) => {
            if !o {
                return RunFormStep::Refuse(own(ORGANIZERS_ONLY));
            }
        },
    }
    match form {
        RunForm::Location => {
            let v = input_value(&f.inputs, "location");
            let t = if v.is_some() {
                own("📍 Location updated.")
            } else {
                own("📍 Location cleared.")
            };
            RunFormStep::SetLocation(v, t)
        },
        RunForm::Party => {
            let v = input_value(&f.inputs, "party");
            let t = if v.is_some() {
                own("📝 Party updated.")
            } else {
                own("📝 Party cleared.")
            };
            RunFormStep::SetParty(v, t)
        },
    }
}

// ----- after the change --------------------------------------------------------------------

/// What follows the attempt to show a changed run.
#[derive(Debug, Clone, Copy, PartialEq, Eq, Structural)]
pub enum AfterEdit {
    /// It is shown.
    Done,
    /// Its message is gone: end the run, in nobody's name.
    EndRun,
    /// Fail with the error.
    Fail,
}

/// What follows the attempt to show a changed run: one whose message is gone can
/// no longer be managed, and is ended.
pub fn after_edit(failed: bool, not_found: bool) -> (r: AfterEdit)
    ensures
        r == (if !failed {
            AfterEdit::Done
        } else if not_found {
            AfterEdit::EndRun
        } else {
            AfterEdit::Fail
        }),
{
    if !failed {
        AfterEdit::Done
    } else if not_found {
        AfterEdit::EndRun
    } else {
        AfterEdit::Fail
    }
}

/// What is said after a transfer: that the run has ended by then, or who leads it.
pub fn transferred(still_there: bool, new_leader: i64) -> (r: String)
    ensures
        r@ == (if still_there {
            "🔁 Leader transferred to "@ + user(new_leader as int) + "."@
        } else {
            RUN_ENDED@
        }),
{
    if still_there {
        cat3("🔁 Leader transferred to ", &user_i64(new_leader), ".")
    } else {
        own(RUN_ENDED)
    }
}

/// What is said after a click on End: that it ended, or that it had ended before.
pub fn end_notice(ended: bool) -> (r: String)
    ensures
        r@ == (if ended {
            "🛑 Run ended."@
        } else {
            RUN_ENDED@
        }),
{
    if ended {
        own("🛑 Run ended.")
    } else {
        own(RUN_ENDED)
    }
}

// ----- what the panel is for ----------------------------------------------------------------

/// A form that an organizer sends for a run that is there sets the location, or the
/// party, to what was typed without the white space around it; where nothing else was
/// typed, it clears it, and what is said tells which.
pub proof fn forms_store_what_was_typed(f: RunFormFacts)
    requires
        f.run is Some && f.run->0 is Some,
        f.organizer == Some(Some(true)),
    ensures
        ({
            let place = trimmed(typed_text(f.inputs@, "location"@));
            let party = trimmed(typed_text(f.inputs@, "party"@));
            &&& place.len() > 0 ==> run_form_step_of(f, RunForm::Location)
                == RunFormStepView::SetLocation(Some(place), "📍 Location updated."@)
            &&& place.len() == 0 ==> run_form_step_of(f, RunForm::Location)
                == RunFormStepView::SetLocation(None, "📍 Location cleared."@)
            &&& party.len() > 0 ==> run_form_step_of(f, RunForm::Party)
                == RunFormStepView::SetParty(Some(party), "📝 Party updated."@)
            &&& party.len() == 0 ==> run_form_step_of(f, RunForm::Party)
                == RunFormStepView::SetParty(None, "📝 Party cleared."@)
        }),
{
}

/// A form changes a run only where the run is there and an organizer sent it; whoever
/// else sends one is told why not.
pub proof fn only_organizers_send_forms(f: RunFormFacts, form: RunForm)
    ensures
        run_form_step_of(f, form) is SetLocation || run_form_step_of(f, form) is SetParty
            ==> f.run is Some && f.run->0 is Some && f.organizer == Some(Some(true)),
        f.run == Some(None::<Run>) ==> run_form_step_of(f, form) == RunFormStepView::Refuse(
            "This run has ended."@,
        ),
        f.run is Some && f.run->0 is Some && f.organizer == Some(None::<bool>) ==> run_form_step_of(
            f,
            form,
        ) == RunFormStepView::Refuse("You're no longer a member of this server."@),
        f.run is Some && f.run->0 is Some && f.organizer == Some(Some(false)) ==> run_form_step_of(
            f,
            form,
        ) == RunFormStepView::Refuse(ORGANIZERS_ONLY@),
        f.run is None ==> run_form_step_of(f, form) is LoadRun,
        f.run is Some && f.run->0 is Some && f.organizer is None ==> run_form_step_of(f, form)
            is AskOrganizer,
{
}

/// What an organizer's click on a run that is there does: each button does its own
/// thing, and whoever was picked becomes the leader unless they lead it already.
pub proof fn organizers_are_obeyed(f: RunFacts, id: i32)
    requires
        f.run is Some && f.run->0 is Some,
        f.organizer == Some(true),
    ensures
        ({
            let run = f.run->0->0;
            &&& run_step_of(f, id, RunClick::End) is End
            &&& run_step_of(f, id, RunClick::ControlPanel) is Panel
            &&& run_step_of(f, id, RunClick::Transfer) is PickLeader
            &&& run_step_of(f, id, RunClick::Location) is Open
            &&& run_step_of(f, id, RunClick::Party) is Open
            &&& f.picked is None ==> run_step_of(f, id, RunClick::TransferPick) is Nothing
            &&& f.picked matches Some(u) ==> u != run.leader_user_id ==> run_step_of(
                f,
                id,
                RunClick::TransferPick,
            ) == RunStepView::Transfer(u, f.self_organized)
            &&& f.picked == Some(run.leader_user_id) ==> run_step_of(f, id, RunClick::TransferPick)
                is Refuse
        }),
{
}

/// The forms and the menu of a run come back as what they are for: each has the number
/// of the run and its own word, asks for the one input that is then read, and shows what
/// is stored.
pub proof fn forms_ask_for_what_is_read(run: Run, id: i32)
    ensures
        ({
            let place = location_form(run, id);
            let party = party_form(run, id);
            &&& place.custom_id == "run:"@ + dec(id as int) + ":loc"@
            &&& place.inputs.len() == 1
            &&& place.inputs[0].custom_id == "location"@
            &&& !place.inputs[0].required
            &&& place.inputs[0].value == Some(
                match run.location {
                    Some(t) => t@,
                    None => Seq::<char>::empty(),
                },
            )
            &&& party.custom_id == "run:"@ + dec(id as int) + ":party"@
            &&& party.inputs.len() == 1
            &&& party.inputs[0].custom_id == "party"@
            &&& !party.inputs[0].required
            &&& party.inputs[0].value == Some(
                match run.party {
                    Some(t) => t@,
                    None => Seq::<char>::empty(),
                },
            )
            &&& leader_menu(id).custom_id == "run:"@ + dec(id as int) + ":xfer"@
            &&& leader_menu(id).kind is Users
            &&& leader_menu(id).min == 1 && leader_menu(id).max == 1
        }),
{
}

/// A step that stores a place, and one that stores a party, carry what is stored and what
/// is said of it, and neither is taken for the other.
pub proof fn form_steps_carry_what_is_stored(value: Option<String>, said: String)
    ensures
        ({
            let place = RunFormStep::SetLocation(value, said)@;
            let party = RunFormStep::SetParty(value, said)@;
            &&& place is SetLocation && party is SetParty
            &&& value is None ==> place->SetLocation_0 is None && party->SetParty_0 is None
            &&& value is Some ==> place->SetLocation_0 == Some((value->0)@) && party->SetParty_0
                == Some((value->0)@)
            &&& place->SetLocation_1 == said@ && party->SetParty_1 == said@
        }),
{
}

} // verus!
