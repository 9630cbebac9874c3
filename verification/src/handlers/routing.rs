//! Where a click or a form leads. The id of a button, a menu or a form names what
//! it acts on, so that nothing has to be remembered between two clicks.

use vstd::prelude::*;

use crate::text::{
    all_digits, begins, dec, dec_nat, int_value, lacks, nat_value, numbers_lack, numbers_read_back,
    own, parse_i32, parse_usize, same, split_at_char, split_behind, split_char, split_whole,
    starts_with, views, within,
};
use crate::unicode::ascii_digit;

verus! {

// ----- the parts of the bot ------------------------------------------------------------

/// The part of the bot that a click belongs to.
#[derive(Debug, Clone, Copy, PartialEq, Eq, Structural)]
pub enum ComponentTarget {
    /// Runs.
    Run,
    /// Headcounts.
    Headcount,
    /// The start-run UI.
    StartRunUi,
    /// Raids that members organize themselves.
    SelfOrganize,
    /// Verification.
    Verify,
    /// Editing dungeons.
    DungeonEdit,
    /// None; whoever waits for the click takes it.
    Nobody,
}

/// The part of the bot that a click belongs to.
pub open spec fn component_target_of(id: Seq<char>) -> ComponentTarget {
    if begins(id, "run:"@) {
        ComponentTarget::Run
    } else if begins(id, "hc:"@) {
        ComponentTarget::Headcount
    } else if begins(id, "srui:"@) {
        ComponentTarget::StartRunUi
    } else if begins(id, "so:"@) {
        ComponentTarget::SelfOrganize
    } else if begins(id, "verify:"@) {
        ComponentTarget::Verify
    } else if begins(id, "de:"@) {
        ComponentTarget::DungeonEdit
    } else {
        ComponentTarget::Nobody
    }
}

/// The part of the bot that a click belongs to.
pub fn component_target(id: &str) -> (r: ComponentTarget)
    ensures
        r == component_target_of(id@),
{
    if starts_with(id, "run:") {
        ComponentTarget::Run
    } else if starts_with(id, "hc:") {
        ComponentTarget::Headcount
    } else if starts_with(id, "srui:") {
        ComponentTarget::StartRunUi
    } else if starts_with(id, "so:") {
        ComponentTarget::SelfOrganize
    } else if starts_with(id, "verify:") {
        ComponentTarget::Verify
    } else if starts_with(id, "de:") {
        ComponentTarget::DungeonEdit
    } else {
        ComponentTarget::Nobody
    }
}

/// The part of the bot that a form belongs to.
#[derive(Debug, Clone, Copy, PartialEq, Eq, Structural)]
pub enum ModalTarget {
    /// Runs.
    Run,
    /// Headcounts.
    Headcount,
    /// Raids that members organize themselves.
    SelfOrganize,
    /// Verification.
    Verify,
    /// Editing dungeons.
    DungeonEdit,
    /// None.
    Nobody,
}

/// The part of the bot that a form belongs to.
pub open spec fn modal_target_of(id: Seq<char>) -> ModalTarget {
    if begins(id, "run:"@) {
        ModalTarget::Run
    } else if begins(id, "hc:"@) {
        ModalTarget::Headcount
    } else if begins(id, "so:"@) {
        ModalTarget::SelfOrganize
    } else if begins(id, "verify:"@) {
        ModalTarget::Verify
    } else if begins(id, "de:"@) {
        ModalTarget::DungeonEdit
    } else {
        ModalTarget::Nobody
    }
}

/// The part of the bot that a form belongs to.
pub fn modal_target(id: &str) -> (r: ModalTarget)
    ensures
        r == modal_target_of(id@),
{
    if starts_with(id, "run:") {
        ModalTarget::Run
    } else if starts_with(id, "hc:") {
        ModalTarget::Headcount
    } else if starts_with(id, "so:") {
        ModalTarget::SelfOrganize
    } else if starts_with(id, "verify:") {
        ModalTarget::Verify
    } else if starts_with(id, "de:") {
        ModalTarget::DungeonEdit
    } else {
        ModalTarget::Nobody
    }
}

proof fn begins_with_char<T>(s: Seq<T>, p: Seq<T>, i: int)
    requires
        begins(s, p),
        0 <= i < p.len(),
    ensures
        i < s.len(),
        s[i] == p[i],
{
    assert(s.subrange(0, p.len() as int)[i] == p[i]);
}

/// Whatever comes behind its prefix, an id leads to the part of the bot that the
/// prefix stands for.
pub proof fn prefixes_decide(rest: Seq<char>)
    ensures
        component_target_of("run:"@ + rest) == ComponentTarget::Run,
        component_target_of("hc:"@ + rest) == ComponentTarget::Headcount,
        component_target_of("srui:"@ + rest) == ComponentTarget::StartRunUi,
        component_target_of("so:"@ + rest) == ComponentTarget::SelfOrganize,
        component_target_of("verify:"@ + rest) == ComponentTarget::Verify,
        component_target_of("de:"@ + rest) == ComponentTarget::DungeonEdit,
        modal_target_of("run:"@ + rest) == ModalTarget::Run,
        modal_target_of("hc:"@ + rest) == ModalTarget::Headcount,
        modal_target_of("so:"@ + rest) == ModalTarget::SelfOrganize,
        modal_target_of("verify:"@ + rest) == ModalTarget::Verify,
        modal_target_of("de:"@ + rest) == ModalTarget::DungeonEdit,
{
    reveal_strlit("run:");
    reveal_strlit("hc:");
    reveal_strlit("srui:");
    reveal_strlit("so:");
    reveal_strlit("verify:");
    reveal_strlit("de:");
    starts_differ("run:"@, rest);
    starts_differ("hc:"@, rest);
    starts_differ("srui:"@, rest);
    starts_differ("so:"@, rest);
    starts_differ("verify:"@, rest);
    starts_differ("de:"@, rest);
}

proof fn starts_differ(own: Seq<char>, rest: Seq<char>)
    requires
        own.len() >= 2,
    ensures
        begins(own + rest, own),
        begins(own + rest, "run:"@) ==> own[0] == 'r',
        begins(own + rest, "hc:"@) ==> own[0] == 'h',
        begins(own + rest, "srui:"@) ==> own[0] == 's' && own[1] == 'r',
        begins(own + rest, "so:"@) ==> own[0] == 's' && own[1] == 'o',
        begins(own + rest, "verify:"@) ==> own[0] == 'v',
        begins(own + rest, "de:"@) ==> own[0] == 'd',
{
    reveal_strlit("run:");
    reveal_strlit("hc:");
    reveal_strlit("srui:");
    reveal_strlit("so:");
    reveal_strlit("verify:");
    reveal_strlit("de:");
    let id = own + rest;
    assert(id.subrange(0, own.len() as int) =~= own);
    assert(id[0] == own[0] && id[1] == own[1]);
    if begins(id, "run:"@) {
        begins_with_char(id, "run:"@, 0);
    }
    if begins(id, "hc:"@) {
        begins_with_char(id, "hc:"@, 0);
    }
    if begins(id, "srui:"@) {
        begins_with_char(id, "srui:"@, 0);
        begins_with_char(id, "srui:"@, 1);
    }
    if begins(id, "so:"@) {
        begins_with_char(id, "so:"@, 0);
        begins_with_char(id, "so:"@, 1);
    }
    if begins(id, "verify:"@) {
        begins_with_char(id, "verify:"@, 0);
    }
    if begins(id, "de:"@) {
        begins_with_char(id, "de:"@, 0);
    }
}

// ----- ids of the form kind:number:action -----------------------------------------------------

/// The number in a piece of an id.
pub open spec fn piece_number(piece: Seq<char>) -> Option<int> {
    within(int_value(piece), i32::MIN as int, i32::MAX as int)
}

/// The number and the action of an id `kind:number:action`.
pub open spec fn numbered(id: Seq<char>) -> Option<(int, Seq<char>)> {
    let parts = split_at_char(id, ':');
    if parts.len() < 3 {
        None
    } else {
        match piece_number(parts[1]) {
            Some(n) => Some((n, parts[2])),
            None => None,
        }
    }
}

/// The number and the action of an id `kind:number:action`.
fn read_numbered(id: &str) -> (r: Option<(i32, String)>)
    ensures
        match r {
            Some((n, a)) => numbered(id@) == Some((n as int, a@)),
            None => numbered(id@) is None,
        },
{
    let parts = split_char(id, ':');
    assert(views(parts@).len() == parts@.len());
    if parts.len() < 3 {
        return None;
    }
    assert(views(parts@)[1] == parts@[1]@);
    assert(views(parts@)[2] == parts@[2]@);
    match parse_i32(&parts[1]) {
        Some(n) => {
            let a = own(&parts[2]);
            Some((n, a))
        },
        None => None,
    }
}

/// The pieces of an id `kind:number:action` are the kind, the number and the
/// action.
pub proof fn numbered_ids_split(kind: Seq<char>, n: int, action: Seq<char>)
    requires
        lacks(kind, ':'),
        lacks(action, ':'),
    ensures
        split_at_char(kind.push(':') + dec(n).push(':') + action, ':') == seq![kind, dec(n), action],
{
    numbers_lack(n, ':');
    split_whole(kind, ':');
    let first = kind.push(':') + dec(n);
    split_behind(kind, dec(n), ':');
    split_behind(first, action, ':');
    assert(kind.push(':') + dec(n).push(':') + action =~= first.push(':') + action);
    assert(seq![kind].push(dec(n)).push(action) =~= seq![kind, dec(n), action]);
}

// ----- headcounts ----------------------------------------------------------------------

/// What a click on a headcount asks for.
#[derive(Debug, Clone, Copy, PartialEq, Eq, Structural)]
pub enum HeadcountClick {
    /// Start the run.
    Start,
    /// Cancel the headcount.
    Cancel,
}

/// What a click on a headcount asks for, and of which.
pub open spec fn headcount_click_of(id: Seq<char>) -> Option<(int, HeadcountClick)> {
    match numbered(id) {
        Some((n, a)) => if a == "start"@ {
            Some((n, HeadcountClick::Start))
        } else if a == "cancel"@ {
            Some((n, HeadcountClick::Cancel))
        } else {
            None
        },
        None => None,
    }
}

/// What a click on a headcount asks for, and of which.
pub fn headcount_click(id: &str) -> (r: Option<(i32, HeadcountClick)>)
    ensures
        match r {
            Some((n, c)) => headcount_click_of(id@) == Some((n as int, c)),
            None => headcount_click_of(id@) is None,
        },
{
    match read_numbered(id) {
        Some((n, a)) => if same(&a, "start") {
            Some((n, HeadcountClick::Start))
        } else if same(&a, "cancel") {
            Some((n, HeadcountClick::Cancel))
        } else {
            None
        },
        None => None,
    }
}

/// The headcount that a form starts the run of.
pub open spec fn headcount_form_of(id: Seq<char>) -> Option<int> {
    match numbered(id) {
        Some((n, a)) => if a == "confirmstart"@ {
            Some(n)
        } else {
            None
        },
        None => None,
    }
}

/// The headcount that a form starts the run of.
pub fn headcount_form(id: &str) -> (r: Option<i32>)
    ensures
        match r {
            Some(n) => headcount_form_of(id@) == Some(n as int),
            None => headcount_form_of(id@) is None,
        },
{
    match read_numbered(id) {
        Some((n, a)) => if same(&a, "confirmstart") {
            Some(n)
        } else {
            None
        },
        None => None,
    }
}

/// The buttons of a headcount lead back to it, whatever its number.
pub proof fn headcount_buttons_lead_back(n: i32)
    ensures
        component_target_of("hc:"@ + dec(n as int) + ":start"@) == ComponentTarget::Headcount,
        component_target_of("hc:"@ + dec(n as int) + ":cancel"@) == ComponentTarget::Headcount,
        modal_target_of("hc:"@ + dec(n as int) + ":confirmstart"@) == ModalTarget::Headcount,
        headcount_click_of("hc:"@ + dec(n as int) + ":start"@) == Some(
            (n as int, HeadcountClick::Start),
        ),
        headcount_click_of("hc:"@ + dec(n as int) + ":cancel"@) == Some(
            (n as int, HeadcountClick::Cancel),
        ),
        headcount_form_of("hc:"@ + dec(n as int) + ":confirmstart"@) == Some(n as int),
{
    reveal_strlit("hc");
    reveal_strlit("hc:");
    reveal_strlit("start");
    reveal_strlit(":start");
    reveal_strlit("cancel");
    reveal_strlit(":cancel");
    reveal_strlit("confirmstart");
    reveal_strlit(":confirmstart");
    let d = dec(n as int);
    numbers_read_back(n as int);
    numbered_ids_split("hc"@, n as int, "start"@);
    numbered_ids_split("hc"@, n as int, "cancel"@);
    numbered_ids_split("hc"@, n as int, "confirmstart"@);
    let a = "hc:"@ + d + ":start"@;
    let b = "hc:"@ + d + ":cancel"@;
    let c = "hc:"@ + d + ":confirmstart"@;
    assert(a =~= "hc"@.push(':') + d.push(':') + "start"@);
    assert(b =~= "hc"@.push(':') + d.push(':') + "cancel"@);
    assert(c =~= "hc"@.push(':') + d.push(':') + "confirmstart"@);
    prefixes_decide(d + ":start"@);
    prefixes_decide(d + ":cancel"@);
    prefixes_decide(d + ":confirmstart"@);
    assert(a =~= "hc:"@ + (d + ":start"@));
    assert(b =~= "hc:"@ + (d + ":cancel"@));
    assert(c =~= "hc:"@ + (d + ":confirmstart"@));
    assert("cancel"@[0] != "start"@[0]);
}

// ----- runs ----------------------------------------------------------------------------

/// What a click on a run asks for.
#[derive(Debug, Clone, Copy, PartialEq, Eq, Structural)]
pub enum RunClick {
    /// Show the control panel.
    ControlPanel,
    /// Ask for the location.
    Location,
    /// Ask for the party.
    Party,
    /// Ask for the new leader.
    Transfer,
    /// Make someone the leader.
    TransferPick,
    /// End the run.
    End,
}

/// What a click on a run asks for, and of which.
pub open spec fn run_click_of(id: Seq<char>) -> Option<(int, RunClick)> {
    match numbered(id) {
        Some((n, a)) => if a == "cp"@ {
            Some((n, RunClick::ControlPanel))
        } else if a == "loc"@ {
            Some((n, RunClick::Location))
        } else if a == "party"@ {
            Some((n, RunClick::Party))
        } else if a == "transfer"@ {
            Some((n, RunClick::Transfer))
        } else if a == "xfer"@ {
            Some((n, RunClick::TransferPick))
        } else if a == "end"@ {
            Some((n, RunClick::End))
        } else {
            None
        },
        None => None,
    }
}

/// What a click on a run asks for, and of which.
pub fn run_click(id: &str) -> (r: Option<(i32, RunClick)>)
    ensures
        match r {
            Some((n, c)) => run_click_of(id@) == Some((n as int, c)),
            None => run_click_of(id@) is None,
        },
{
    match read_numbered(id) {
        Some((n, a)) => if same(&a, "cp") {
            Some((n, RunClick::ControlPanel))
        } else if same(&a, "loc") {
            Some((n, RunClick::Location))
        } else if same(&a, "party") {
            Some((n, RunClick::Party))
        } else if same(&a, "transfer") {
            Some((n, RunClick::Transfer))
        } else if same(&a, "xfer") {
            Some((n, RunClick::TransferPick))
        } else if same(&a, "end") {
            Some((n, RunClick::End))
        } else {
            None
        },
        None => None,
    }
}

/// What a form of a run sets.
#[derive(Debug, Clone, Copy, PartialEq, Eq, Structural)]
pub enum RunForm {
    /// The location.
    Location,
    /// The party.
    Party,
}

/// What a form of a run sets, and of which.
pub open spec fn run_form_of(id: Seq<char>) -> Option<(int, RunForm)> {
    match numbered(id) {
        Some((n, a)) => if a == "loc"@ {
            Some((n, RunForm::Location))
        } else if a == "party"@ {
            Some((n, RunForm::Party))
        } else {
            None
        },
        None => None,
    }
}

/// What a form of a run sets, and of which.
pub fn run_form(id: &str) -> (r: Option<(i32, RunForm)>)
    ensures
        match r {
            Some((n, c)) => run_form_of(id@) == Some((n as int, c)),
            None => run_form_of(id@) is None,
        },
{
    match read_numbered(id) {
        Some((n, a)) => if same(&a, "loc") {
            Some((n, RunForm::Location))
        } else if same(&a, "party") {
            Some((n, RunForm::Party))
        } else {
            None
        },
        None => None,
    }
}

proof fn run_id_splits(n: i32, action: Seq<char>)
    requires
        lacks(action, ':'),
    ensures
        numbered("run:"@ + dec(n as int) + (seq![':'] + action)) == Some((n as int, action)),
        component_target_of("run:"@ + dec(n as int) + (seq![':'] + action)) == ComponentTarget::Run,
        modal_target_of("run:"@ + dec(n as int) + (seq![':'] + action)) == ModalTarget::Run,
{
    reveal_strlit("run");
    reveal_strlit("run:");
    let d = dec(n as int);
    numbers_read_back(n as int);
    numbered_ids_split("run"@, n as int, action);
    let a = "run:"@ + d + (seq![':'] + action);
    assert(a =~= "run"@.push(':') + d.push(':') + action);
    prefixes_decide(d + (seq![':'] + action));
    assert(a =~= "run:"@ + (d + (seq![':'] + action)));
}

/// The buttons and forms of a run lead back to it, whatever its number.
pub proof fn run_buttons_lead_back(n: i32)
    ensures
        run_click_of("run:"@ + dec(n as int) + ":cp"@) == Some((n as int, RunClick::ControlPanel)),
        run_click_of("run:"@ + dec(n as int) + ":loc"@) == Some((n as int, RunClick::Location)),
        run_click_of("run:"@ + dec(n as int) + ":party"@) == Some((n as int, RunClick::Party)),
        run_click_of("run:"@ + dec(n as int) + ":transfer"@) == Some((n as int, RunClick::Transfer)),
        run_click_of("run:"@ + dec(n as int) + ":xfer"@) == Some((n as int, RunClick::TransferPick)),
        run_click_of("run:"@ + dec(n as int) + ":end"@) == Some((n as int, RunClick::End)),
        run_form_of("run:"@ + dec(n as int) + ":loc"@) == Some((n as int, RunForm::Location)),
        run_form_of("run:"@ + dec(n as int) + ":party"@) == Some((n as int, RunForm::Party)),
        component_target_of("run:"@ + dec(n as int) + ":cp"@) == ComponentTarget::Run,
        component_target_of("run:"@ + dec(n as int) + ":loc"@) == ComponentTarget::Run,
        component_target_of("run:"@ + dec(n as int) + ":party"@) == ComponentTarget::Run,
        component_target_of("run:"@ + dec(n as int) + ":transfer"@) == ComponentTarget::Run,
        component_target_of("run:"@ + dec(n as int) + ":xfer"@) == ComponentTarget::Run,
        component_target_of("run:"@ + dec(n as int) + ":end"@) == ComponentTarget::Run,
        modal_target_of("run:"@ + dec(n as int) + ":loc"@) == ModalTarget::Run,
        modal_target_of("run:"@ + dec(n as int) + ":party"@) == ModalTarget::Run,
{
    reveal_strlit("cp");
    reveal_strlit(":cp");
    reveal_strlit("loc");
    reveal_strlit(":loc");
    reveal_strlit("party");
    reveal_strlit(":party");
    reveal_strlit("transfer");
    reveal_strlit(":transfer");
    reveal_strlit("xfer");
    reveal_strlit(":xfer");
    reveal_strlit("end");
    reveal_strlit(":end");
    run_id_splits(n, "cp"@);
    run_id_splits(n, "loc"@);
    run_id_splits(n, "party"@);
    run_id_splits(n, "transfer"@);
    run_id_splits(n, "xfer"@);
    run_id_splits(n, "end"@);
    assert(":cp"@ =~= seq![':'] + "cp"@);
    assert(":loc"@ =~= seq![':'] + "loc"@);
    assert(":party"@ =~= seq![':'] + "party"@);
    assert(":transfer"@ =~= seq![':'] + "transfer"@);
    assert(":xfer"@ =~= seq![':'] + "xfer"@);
    assert(":end"@ =~= seq![':'] + "end"@);
    assert("loc"@ != "cp"@ && "end"@ != "loc"@ && "end"@ != "cp"@) by {
        assert("loc"@[0] == 'l' && "cp"@[0] == 'c' && "end"@[0] == 'e');
    }
    assert("party"@[0] == 'p');
    assert("transfer"@[0] == 't');
    assert("xfer"@[0] == 'x');
}

// ----- raids that members organize ------------------------------------------------------------

/// What a click on the start-run UI asks for.
#[derive(Debug, Clone, Copy, PartialEq, Eq, Structural)]
pub enum SoClick {
    /// Show the dungeons.
    Open,
    /// Show a page of the dungeons.
    Page(usize),
    /// A dungeon was picked.
    Pick,
}

/// What a click on the start-run UI asks for, and of which tier: ids of the form
/// `so:action:tier`, and `so:page:tier:page`.
pub open spec fn so_click_of(id: Seq<char>) -> Option<(int, SoClick)> {
    let parts = split_at_char(id, ':');
    if parts.len() < 3 {
        None
    } else {
        match piece_number(parts[2]) {
            None => None,
            Some(tier) => if parts[1] == "btn"@ {
                Some((tier, SoClick::Open))
            } else if parts[1] == "page"@ {
                let page = if parts.len() > 3 {
                    within(nat_value(parts[3]), 0, usize::MAX as int)
                } else {
                    None
                };
                Some(
                    (
                        tier,
                        SoClick::Page(
                            match page {
                                Some(p) => p as usize,
                                None => 0,
                            },
                        ),
                    ),
                )
            } else if parts[1] == "dpick"@ {
                Some((tier, SoClick::Pick))
            } else {
                None
            },
        }
    }
}

/// What a click on the start-run UI asks for, and of which tier.
pub fn so_click(id: &str) -> (r: Option<(i32, SoClick)>)
    ensures
        match r {
            Some((n, c)) => so_click_of(id@) == Some((n as int, c)),
            None => so_click_of(id@) is None,
        },
{
    let parts = split_char(id, ':');
    let ghost pv = views(parts@);
    assert(pv.len() == parts@.len());
    if parts.len() < 3 {
        return None;
    }
    assert(pv[1] == parts@[1]@ && pv[2] == parts@[2]@);
    let tier: i32 = match parse_i32(&parts[2]) {
        Some(n) => n,
        None => {
            return None;
        },
    };
    if same(&parts[1], "btn") {
        Some((tier, SoClick::Open))
    } else if same(&parts[1], "page") {
        let page: usize = if parts.len() > 3 {
            assert(pv[3] == parts@[3]@);
            match parse_usize(&parts[3]) {
                Some(p) => p,
                None => 0,
            }
        } else {
            0
        };
        Some((tier, SoClick::Page(page)))
    } else if same(&parts[1], "dpick") {
        Some((tier, SoClick::Pick))
    } else {
        None
    }
}

/// The tier and the dungeon that a form starts a headcount for: ids of the form
/// `so:start:tier:dungeon`.
pub open spec fn so_form_of(id: Seq<char>) -> Option<(int, int)> {
    let parts = split_at_char(id, ':');
    if parts.len() < 4 || parts[1] != "start"@ {
        None
    } else {
        match (piece_number(parts[2]), piece_number(parts[3])) {
            (Some(tier), Some(template)) => Some((tier, template)),
            _ => None,
        }
    }
}

/// The tier and the dungeon that a form starts a headcount for.
pub fn so_form(id: &str) -> (r: Option<(i32, i32)>)
    ensures
        match r {
            Some((t, d)) => so_form_of(id@) == Some((t as int, d as int)),
            None => so_form_of(id@) is None,
        },
{
    let parts = split_char(id, ':');
    let ghost pv = views(parts@);
    assert(pv.len() == parts@.len());
    if parts.len() < 4 {
        return None;
    }
    assert(pv[1] == parts@[1]@ && pv[2] == parts@[2]@ && pv[3] == parts@[3]@);
    if !same(&parts[1], "start") {
        return None;
    }
    match (parse_i32(&parts[2]), parse_i32(&parts[3])) {
        (Some(t), Some(d)) => Some((t, d)),
        _ => None,
    }
}

/// The pieces of an id `kind:action:number`.
proof fn trailing_ids_split(kind: Seq<char>, action: Seq<char>, n: int)
    requires
        lacks(kind, ':'),
        lacks(action, ':'),
    ensures
        split_at_char(kind.push(':') + action.push(':') + dec(n), ':') == seq![kind, action, dec(n)],
{
    numbers_lack(n, ':');
    split_whole(kind, ':');
    let first = kind.push(':') + action;
    split_behind(kind, action, ':');
    split_behind(first, dec(n), ':');
    assert(kind.push(':') + action.push(':') + dec(n) =~= first.push(':') + dec(n));
    assert(seq![kind].push(action).push(dec(n)) =~= seq![kind, action, dec(n)]);
}

proof fn four_pieces(kind: Seq<char>, action: Seq<char>, n: int, m: int)
    requires
        lacks(kind, ':'),
        lacks(action, ':'),
    ensures
        split_at_char(kind.push(':') + action.push(':') + dec(n).push(':') + dec(m), ':') == seq![
            kind,
            action,
            dec(n),
            dec(m),
        ],
{
    numbers_lack(m, ':');
    trailing_ids_split(kind, action, n);
    let first = kind.push(':') + action.push(':') + dec(n);
    split_behind(first, dec(m), ':');
    assert(kind.push(':') + action.push(':') + dec(n).push(':') + dec(m) =~= first.push(':') + dec(
        m,
    ));
    assert(seq![kind, action, dec(n)].push(dec(m)) =~= seq![kind, action, dec(n), dec(m)]);
}

proof fn page_numbers_read_back(page: usize)
    ensures
        within(nat_value(dec(page as int)), 0, usize::MAX as int) == Some(page as int),
{
    numbers_read_back(page as int);
    let s = dec(page as int);
    if s[0] == '-' {
        assert(!ascii_digit(s[0]));
        assert(!all_digits(s));
        if s.len() > 1 && all_digits(s.skip(1)) {
            assert(page == 0);
            assert(s == dec_nat(0));
        }
    }
}

proof fn so_id_splits(action: Seq<char>, n: i32, behind: Option<int>)
    requires
        lacks(action, ':'),
    ensures
        ({
            let id = "so:"@ + action + ":"@ + dec(n as int);
            let whole = match behind {
                Some(m) => id + ":"@ + dec(m),
                None => id,
            };
            &&& split_at_char(whole, ':') == match behind {
                Some(m) => seq!["so"@, action, dec(n as int), dec(m)],
                None => seq!["so"@, action, dec(n as int)],
            }
            &&& component_target_of(whole) == ComponentTarget::SelfOrganize
            &&& modal_target_of(whole) == ModalTarget::SelfOrganize
        }),
        piece_number(dec(n as int)) == Some(n as int),
{
    reveal_strlit("so");
    reveal_strlit("so:");
    reveal_strlit(":");
    numbers_read_back(n as int);
    let d = dec(n as int);
    let id = "so:"@ + action + ":"@ + d;
    trailing_ids_split("so"@, action, n as int);
    assert(id =~= "so"@.push(':') + action.push(':') + d);
    prefixes_decide(action + ":"@ + d);
    assert(id =~= "so:"@ + (action + ":"@ + d));
    if let Some(m) = behind {
        four_pieces("so"@, action, n as int, m);
        let whole = id + ":"@ + dec(m);
        assert(whole =~= "so"@.push(':') + action.push(':') + d.push(':') + dec(m));
        prefixes_decide(action + ":"@ + d + ":"@ + dec(m));
        assert(whole =~= "so:"@ + (action + ":"@ + d + ":"@ + dec(m)));
    }
}

/// The buttons, menus and forms of the start-run UI lead back to their tier, page
/// and dungeon, whatever their numbers.
pub proof fn start_run_buttons_lead_back(tier: i32, template: i32, page: usize)
    ensures
        so_click_of("so:btn:"@ + dec(tier as int)) == Some((tier as int, SoClick::Open)),
        so_click_of("so:dpick:"@ + dec(tier as int)) == Some((tier as int, SoClick::Pick)),
        so_click_of("so:page:"@ + dec(tier as int) + ":"@ + dec(page as int)) == Some(
            (tier as int, SoClick::Page(page)),
        ),
        so_form_of("so:start:"@ + dec(tier as int) + ":"@ + dec(template as int)) == Some(
            (tier as int, template as int),
        ),
        component_target_of("so:btn:"@ + dec(tier as int)) == ComponentTarget::SelfOrganize,
        component_target_of("so:dpick:"@ + dec(tier as int)) == ComponentTarget::SelfOrganize,
        component_target_of("so:page:"@ + dec(tier as int) + ":"@ + dec(page as int))
            == ComponentTarget::SelfOrganize,
        modal_target_of("so:start:"@ + dec(tier as int) + ":"@ + dec(template as int))
            == ModalTarget::SelfOrganize,
{
    assert(lacks("btn"@, ':') && "so:btn:"@ == "so:"@ + "btn"@ + ":"@) by {
        reveal_strlit("btn");
        reveal_strlit("so:btn:");
        reveal_strlit("so:");
        reveal_strlit(":");
        assert("so:btn:"@ =~= "so:"@ + "btn"@ + ":"@);
    }
    so_id_splits("btn"@, tier, None);
    assert(lacks("dpick"@, ':') && "so:dpick:"@ == "so:"@ + "dpick"@ + ":"@) by {
        reveal_strlit("dpick");
        reveal_strlit("so:dpick:");
        reveal_strlit("so:");
        reveal_strlit(":");
        assert("so:dpick:"@ =~= "so:"@ + "dpick"@ + ":"@);
    }
    so_id_splits("dpick"@, tier, None);
    assert(lacks("page"@, ':') && "so:page:"@ == "so:"@ + "page"@ + ":"@) by {
        reveal_strlit("page");
        reveal_strlit("so:page:");
        reveal_strlit("so:");
        reveal_strlit(":");
        assert("so:page:"@ =~= "so:"@ + "page"@ + ":"@);
    }
    so_id_splits("page"@, tier, Some(page as int));
    assert(lacks("start"@, ':') && "so:start:"@ == "so:"@ + "start"@ + ":"@) by {
        reveal_strlit("start");
        reveal_strlit("so:start:");
        reveal_strlit("so:");
        reveal_strlit(":");
        assert("so:start:"@ =~= "so:"@ + "start"@ + ":"@);
    }
    so_id_splits("start"@, tier, Some(template as int));
    page_numbers_read_back(page);
    numbers_read_back(template as int);
    assert("btn"@ != "page"@ && "dpick"@ != "btn"@ && "dpick"@ != "page"@) by {
        reveal_strlit("btn");
        reveal_strlit("page");
        reveal_strlit("dpick");
        assert("btn"@[0] == 'b' && "page"@[0] == 'p' && "dpick"@[0] == 'd');
    }
}

// ----- editing dungeons --------------------------------------------------------------------

/// What a click in the editor of a dungeon asks for.
#[derive(Debug)]
pub enum EditClick {
    /// Set the reactions of a category.
    Reactions(i32, String),
    /// Set the tiers.
    Tiers(i32),
    /// Ask for the texts.
    Scalars(i32),
    /// Switch whether a voice channel is needed.
    Voice(i32),
    /// Show the reactions.
    Tune(i32),
    /// Ask for the settings of a reaction.
    TunePick(i32),
    /// Show the dungeon again.
    Back(i32),
    /// Close the editor.
    Done,
}

/// What a click in the editor of a dungeon asks for, over views.
pub ghost enum EditClickView {
    Reactions(int, Seq<char>),
    Tiers(int),
    Scalars(int),
    Voice(int),
    Tune(int),
    TunePick(int),
    Back(int),
    Done,
}

impl View for EditClick {
    type V = EditClickView;

    open spec fn view(&self) -> EditClickView {
        match self {
            EditClick::Reactions(n, c) => EditClickView::Reactions(*n as int, c@),
            EditClick::Tiers(n) => EditClickView::Tiers(*n as int),
            EditClick::Scalars(n) => EditClickView::Scalars(*n as int),
            EditClick::Voice(n) => EditClickView::Voice(*n as int),
            EditClick::Tune(n) => EditClickView::Tune(*n as int),
            EditClick::TunePick(n) => EditClickView::TunePick(*n as int),
            EditClick::Back(n) => EditClickView::Back(*n as int),
            EditClick::Done => EditClickView::Done,
        }
    }
}

/// What a click in the editor of a dungeon asks for: ids of the form
/// `de:action:number`, and `de:react:number:category`.
pub open spec fn edit_click_of(id: Seq<char>) -> Option<EditClickView> {
    let parts = split_at_char(id, ':');
    if parts.len() < 2 {
        None
    } else if parts[1] == "done"@ {
        Some(EditClickView::Done)
    } else if parts.len() < 3 {
        None
    } else {
        match piece_number(parts[2]) {
            None => None,
            Some(n) => if parts[1] == "react"@ {
                if parts.len() >= 4 {
                    Some(EditClickView::Reactions(n, parts[3]))
                } else {
                    None
                }
            } else if parts[1] == "tiers"@ {
                Some(EditClickView::Tiers(n))
            } else if parts[1] == "scalars"@ {
                Some(EditClickView::Scalars(n))
            } else if parts[1] == "vc"@ {
                Some(EditClickView::Voice(n))
            } else if parts[1] == "tune"@ {
                Some(EditClickView::Tune(n))
            } else if parts[1] == "tunepick"@ {
                Some(EditClickView::TunePick(n))
            } else if parts[1] == "back"@ {
                Some(EditClickView::Back(n))
            } else {
                None
            },
        }
    }
}

/// What a click in the editor of a dungeon asks for.
pub fn edit_click(id: &str) -> (r: Option<EditClick>)
    ensures
        match r {
            Some(c) => edit_click_of(id@) == Some(c@),
            None => edit_click_of(id@) is None,
        },
{
    let parts = split_char(id, ':');
    let ghost pv = views(parts@);
    assert(pv.len() == parts@.len());
    if parts.len() < 2 {
        return None;
    }
    assert(pv[1] == parts@[1]@);
    if same(&parts[1], "done") {
        return Some(EditClick::Done);
    }
    if parts.len() < 3 {
        return None;
    }
    assert(pv[2] == parts@[2]@);
    let n: i32 = match parse_i32(&parts[2]) {
        Some(n) => n,
        None => {
            return None;
        },
    };
    if same(&parts[1], "react") {
        if parts.len() >= 4 {
            assert(pv[3] == parts@[3]@);
            Some(EditClick::Reactions(n, own(&parts[3])))
        } else {
            None
        }
    } else if same(&parts[1], "tiers") {
        Some(EditClick::Tiers(n))
    } else if same(&parts[1], "scalars") {
        Some(EditClick::Scalars(n))
    } else if same(&parts[1], "vc") {
        Some(EditClick::Voice(n))
    } else if same(&parts[1], "tune") {
        Some(EditClick::Tune(n))
    } else if same(&parts[1], "tunepick") {
        Some(EditClick::TunePick(n))
    } else if same(&parts[1], "back") {
        Some(EditClick::Back(n))
    } else {
        None
    }
}

/// What a form of the editor does.
#[derive(Debug, Clone, Copy, PartialEq, Eq, Structural)]
pub enum EditForm {
    /// Make a dungeon, perhaps after another.
    Create(Option<i32>),
    /// Set the texts of a dungeon.
    Scalars(i32),
    /// Set a reaction.
    Tune(i32),
}

/// What a form of the editor does.
pub open spec fn edit_form_of(id: Seq<char>) -> Option<EditForm> {
    let parts = split_at_char(id, ':');
    if parts.len() < 3 {
        None
    } else if parts[1] == "create"@ {
        Some(
            EditForm::Create(
                match piece_number(parts[2]) {
                    Some(n) => if n > 0 {
                        Some(n as i32)
                    } else {
                        None
                    },
                    None => None,
                },
            ),
        )
    } else if parts[1] == "scalarsubmit"@ {
        match piece_number(parts[2]) {
            Some(n) => Some(EditForm::Scalars(n as i32)),
            None => None,
        }
    } else if parts[1] == "tunesubmit"@ {
        match piece_number(parts[2]) {
            Some(n) => Some(EditForm::Tune(n as i32)),
            None => None,
        }
    } else {
        None
    }
}

/// What a form of the editor does.
pub fn edit_form(id: &str) -> (r: Option<EditForm>)
    ensures
        r == edit_form_of(id@),
{
    let parts = split_char(id, ':');
    let ghost pv = views(parts@);
    assert(pv.len() == parts@.len());
    if parts.len() < 3 {
        return None;
    }
    assert(pv[1] == parts@[1]@ && pv[2] == parts@[2]@);
    if same(&parts[1], "create") {
        Some(
            EditForm::Create(
                match parse_i32(&parts[2]) {
                    Some(n) => if n > 0 {
                        Some(n)
                    } else {
                        None
                    },
                    None => None,
                },
            ),
        )
    } else if same(&parts[1], "scalarsubmit") {
        match parse_i32(&parts[2]) {
            Some(n) => Some(EditForm::Scalars(n)),
            None => None,
        }
    } else if same(&parts[1], "tunesubmit") {
        match parse_i32(&parts[2]) {
            Some(n) => Some(EditForm::Tune(n)),
            None => None,
        }
    } else {
        None
    }
}

proof fn edit_id_splits(action: Seq<char>, n: i32)
    requires
        lacks(action, ':'),
    ensures
        split_at_char("de:"@ + action + ":"@ + dec(n as int), ':') == seq!["de"@, action, dec(n as int)],
        piece_number(dec(n as int)) == Some(n as int),
        component_target_of("de:"@ + action + ":"@ + dec(n as int)) == ComponentTarget::DungeonEdit,
        modal_target_of("de:"@ + action + ":"@ + dec(n as int)) == ModalTarget::DungeonEdit,
{
    reveal_strlit("de");
    reveal_strlit("de:");
    reveal_strlit(":");
    numbers_read_back(n as int);
    trailing_ids_split("de"@, action, n as int);
    let id = "de:"@ + action + ":"@ + dec(n as int);
    assert(id =~= "de"@.push(':') + action.push(':') + dec(n as int));
    prefixes_decide(action + ":"@ + dec(n as int));
    assert(id =~= "de:"@ + (action + ":"@ + dec(n as int)));
}

proof fn edit_words_differ()
    ensures
        "done"@ != "react"@,
        "done"@ != "tiers"@,
        "react"@ != "tiers"@,
        "done"@ != "scalars"@,
        "react"@ != "scalars"@,
        "tiers"@ != "scalars"@,
        "done"@ != "vc"@,
        "react"@ != "vc"@,
        "tiers"@ != "vc"@,
        "scalars"@ != "vc"@,
        "done"@ != "tune"@,
        "react"@ != "tune"@,
        "tiers"@ != "tune"@,
        "scalars"@ != "tune"@,
        "vc"@ != "tune"@,
        "done"@ != "tunepick"@,
        "react"@ != "tunepick"@,
        "tiers"@ != "tunepick"@,
        "scalars"@ != "tunepick"@,
        "vc"@ != "tunepick"@,
        "tune"@ != "tunepick"@,
        "done"@ != "back"@,
        "react"@ != "back"@,
        "tiers"@ != "back"@,
        "scalars"@ != "back"@,
        "vc"@ != "back"@,
        "tune"@ != "back"@,
        "tunepick"@ != "back"@,
{
    reveal_strlit("done");
    reveal_strlit("react");
    reveal_strlit("tiers");
    reveal_strlit("scalars");
    reveal_strlit("vc");
    reveal_strlit("tune");
    reveal_strlit("tunepick");
    reveal_strlit("back");
    assert("done"@[0] == 'd' && "react"@[0] == 'r' && "scalars"@[0] == 's' && "vc"@[0] == 'v'
        && "back"@[0] == 'b');
    assert("tiers"@.len() == 5 && "tune"@.len() == 4 && "tunepick"@.len() == 8);
    assert("tiers"@[0] == 't' && "tune"@[0] == 't' && "tunepick"@[0] == 't');
}

/// The buttons of the editor lead back to their dungeon or reaction, whatever its
/// number.
pub proof fn editor_buttons_lead_back(n: i32)
    ensures
        edit_click_of("de:tiers:"@ + dec(n as int)) == Some(EditClickView::Tiers(n as int)),
        component_target_of("de:tiers:"@ + dec(n as int)) == ComponentTarget::DungeonEdit,
        edit_click_of("de:scalars:"@ + dec(n as int)) == Some(EditClickView::Scalars(n as int)),
        component_target_of("de:scalars:"@ + dec(n as int)) == ComponentTarget::DungeonEdit,
        edit_click_of("de:vc:"@ + dec(n as int)) == Some(EditClickView::Voice(n as int)),
        component_target_of("de:vc:"@ + dec(n as int)) == ComponentTarget::DungeonEdit,
        edit_click_of("de:tune:"@ + dec(n as int)) == Some(EditClickView::Tune(n as int)),
        component_target_of("de:tune:"@ + dec(n as int)) == ComponentTarget::DungeonEdit,
        edit_click_of("de:tunepick:"@ + dec(n as int)) == Some(EditClickView::TunePick(n as int)),
        component_target_of("de:tunepick:"@ + dec(n as int)) == ComponentTarget::DungeonEdit,
        edit_click_of("de:back:"@ + dec(n as int)) == Some(EditClickView::Back(n as int)),
        component_target_of("de:back:"@ + dec(n as int)) == ComponentTarget::DungeonEdit,
{
    assert(lacks("tiers"@, ':') && "de:tiers:"@ == "de:"@ + "tiers"@ + ":"@) by {
        reveal_strlit("tiers");
        reveal_strlit("de:tiers:");
        reveal_strlit("de:");
        reveal_strlit(":");
        assert("de:tiers:"@ =~= "de:"@ + "tiers"@ + ":"@);
    }
    edit_id_splits("tiers"@, n);
    assert(lacks("scalars"@, ':') && "de:scalars:"@ == "de:"@ + "scalars"@ + ":"@) by {
        reveal_strlit("scalars");
        reveal_strlit("de:scalars:");
        reveal_strlit("de:");
        reveal_strlit(":");
        assert("de:scalars:"@ =~= "de:"@ + "scalars"@ + ":"@);
    }
    edit_id_splits("scalars"@, n);
    assert(lacks("vc"@, ':') && "de:vc:"@ == "de:"@ + "vc"@ + ":"@) by {
        reveal_strlit("vc");
        reveal_strlit("de:vc:");
        reveal_strlit("de:");
        reveal_strlit(":");
        assert("de:vc:"@ =~= "de:"@ + "vc"@ + ":"@);
    }
    edit_id_splits("vc"@, n);
    assert(lacks("tune"@, ':') && "de:tune:"@ == "de:"@ + "tune"@ + ":"@) by {
        reveal_strlit("tune");
        reveal_strlit("de:tune:");
        reveal_strlit("de:");
        reveal_strlit(":");
        assert("de:tune:"@ =~= "de:"@ + "tune"@ + ":"@);
    }
    edit_id_splits("tune"@, n);
    assert(lacks("tunepick"@, ':') && "de:tunepick:"@ == "de:"@ + "tunepick"@ + ":"@) by {
        reveal_strlit("tunepick");
        reveal_strlit("de:tunepick:");
        reveal_strlit("de:");
        reveal_strlit(":");
        assert("de:tunepick:"@ =~= "de:"@ + "tunepick"@ + ":"@);
    }
    edit_id_splits("tunepick"@, n);
    assert(lacks("back"@, ':') && "de:back:"@ == "de:"@ + "back"@ + ":"@) by {
        reveal_strlit("back");
        reveal_strlit("de:back:");
        reveal_strlit("de:");
        reveal_strlit(":");
        assert("de:back:"@ =~= "de:"@ + "back"@ + ":"@);
    }
    edit_id_splits("back"@, n);
    edit_words_differ();
}

/// The forms of the editor lead back to their dungeon or reaction, whatever its
/// number.
pub proof fn editor_forms_lead_back(n: i32)
    ensures
        edit_form_of("de:scalarsubmit:"@ + dec(n as int)) == Some(EditForm::Scalars(n)),
        modal_target_of("de:scalarsubmit:"@ + dec(n as int)) == ModalTarget::DungeonEdit,
        edit_form_of("de:tunesubmit:"@ + dec(n as int)) == Some(EditForm::Tune(n)),
        modal_target_of("de:tunesubmit:"@ + dec(n as int)) == ModalTarget::DungeonEdit,
        edit_form_of("de:create:"@ + dec(n as int)) == Some(
            EditForm::Create(
                if n > 0 {
                    Some(n)
                } else {
                    None
                },
            ),
        ),
        modal_target_of("de:create:"@ + dec(n as int)) == ModalTarget::DungeonEdit,
{
    assert(lacks("scalarsubmit"@, ':') && "de:scalarsubmit:"@ == "de:"@ + "scalarsubmit"@ + ":"@) by {
        reveal_strlit("scalarsubmit");
        reveal_strlit("de:scalarsubmit:");
        reveal_strlit("de:");
        reveal_strlit(":");
        assert("de:scalarsubmit:"@ =~= "de:"@ + "scalarsubmit"@ + ":"@);
    }
    edit_id_splits("scalarsubmit"@, n);
    assert(lacks("tunesubmit"@, ':') && "de:tunesubmit:"@ == "de:"@ + "tunesubmit"@ + ":"@) by {
        reveal_strlit("tunesubmit");
        reveal_strlit("de:tunesubmit:");
        reveal_strlit("de:");
        reveal_strlit(":");
        assert("de:tunesubmit:"@ =~= "de:"@ + "tunesubmit"@ + ":"@);
    }
    edit_id_splits("tunesubmit"@, n);
    assert(lacks("create"@, ':') && "de:create:"@ == "de:"@ + "create"@ + ":"@) by {
        reveal_strlit("create");
        reveal_strlit("de:create:");
        reveal_strlit("de:");
        reveal_strlit(":");
        assert("de:create:"@ =~= "de:"@ + "create"@ + ":"@);
    }
    edit_id_splits("create"@, n);
    assert("create"@ != "scalarsubmit"@ && "create"@ != "tunesubmit"@ && "scalarsubmit"@
        != "tunesubmit"@) by {
        reveal_strlit("create");
        reveal_strlit("scalarsubmit");
        reveal_strlit("tunesubmit");
        assert("scalarsubmit"@[0] == 's' && "tunesubmit"@[0] == 't' && "create"@[0] == 'c');
    }
}

/// The menu of a category leads back to its dungeon and its category, whatever the
/// number of the dungeon.
pub proof fn category_menus_lead_back(n: i32, category: Seq<char>)
    requires
        lacks(category, ':'),
    ensures
        edit_click_of("de:react:"@ + dec(n as int) + ":"@ + category) == Some(
            EditClickView::Reactions(n as int, category),
        ),
        component_target_of("de:react:"@ + dec(n as int) + ":"@ + category)
            == ComponentTarget::DungeonEdit,
{
    let d = dec(n as int);
    reveal_strlit("de");
    reveal_strlit("de:");
    reveal_strlit(":");
    reveal_strlit("done");
    reveal_strlit("react");
    reveal_strlit("react:");
    reveal_strlit("de:react:");
    numbers_read_back(n as int);
    trailing_ids_split("de"@, "react"@, n as int);
    let first = "de"@.push(':') + "react"@.push(':') + d;
    split_behind(first, category, ':');
    let id = "de:react:"@ + d + ":"@ + category;
    assert(id =~= first.push(':') + category);
    assert(seq!["de"@, "react"@, d].push(category) =~= seq!["de"@, "react"@, d, category]);
    prefixes_decide("react:"@ + d + ":"@ + category);
    assert(id =~= "de:"@ + ("react:"@ + d + ":"@ + category));
    assert("done"@[0] == 'd' && "react"@[0] == 'r');
}

// ----- verification ----------------------------------------------------------------------

/// What a click on verification asks for.
#[derive(Debug, Clone, Copy, PartialEq, Eq, Structural)]
pub enum VerifyClick {
    /// Ask for the in-game name.
    Start,
    /// Look for the code.
    Check,
    /// Give a new code.
    Resend,
    /// Nothing.
    Ignore,
}

/// What a click on verification asks for.
pub fn verify_click(id: &str) -> (r: VerifyClick)
    ensures
        r == (if id@ == "verify:start"@ {
            VerifyClick::Start
        } else if id@ == "verify:check"@ {
            VerifyClick::Check
        } else if id@ == "verify:resend"@ {
            VerifyClick::Resend
        } else {
            VerifyClick::Ignore
        }),
{
    if same(id, "verify:start") {
        VerifyClick::Start
    } else if same(id, "verify:check") {
        VerifyClick::Check
    } else if same(id, "verify:resend") {
        VerifyClick::Resend
    } else {
        VerifyClick::Ignore
    }
}

/// The id of the form that asks for the in-game name.
pub const IGN_FORM_ID: &'static str = "verify:submit_ign";

/// Whether a form is the one that asks for the in-game name.
pub fn is_ign_form(id: &str) -> (r: bool)
    ensures
        r == (id@ == IGN_FORM_ID@),
{
    same(id, IGN_FORM_ID)
}

/// Nothing leads to a part of the bot but its own prefix.
pub proof fn only_prefixes_lead_anywhere(id: Seq<char>)
    ensures
        component_target_of(id) is Run <==> begins(id, "run:"@),
        component_target_of(id) is Headcount <==> begins(id, "hc:"@),
        component_target_of(id) is StartRunUi <==> begins(id, "srui:"@),
        component_target_of(id) is SelfOrganize <==> begins(id, "so:"@),
        component_target_of(id) is Verify <==> begins(id, "verify:"@),
        component_target_of(id) is DungeonEdit <==> begins(id, "de:"@),
        modal_target_of(id) is Run <==> begins(id, "run:"@),
        modal_target_of(id) is Headcount <==> begins(id, "hc:"@),
        modal_target_of(id) is SelfOrganize <==> begins(id, "so:"@),
        modal_target_of(id) is Verify <==> begins(id, "verify:"@),
        modal_target_of(id) is DungeonEdit <==> begins(id, "de:"@),
{
    reveal_strlit("run:");
    reveal_strlit("hc:");
    reveal_strlit("srui:");
    reveal_strlit("so:");
    reveal_strlit("verify:");
    reveal_strlit("de:");
    if begins(id, "run:"@) {
        assert(id.subrange(0, 4)[0] == 'r');
    }
    if begins(id, "hc:"@) {
        assert(id.subrange(0, 3)[0] == 'h');
    }
    if begins(id, "srui:"@) {
        assert(id.subrange(0, 5)[0] == 's');
        assert(id.subrange(0, 5)[1] == 'r');
    }
    if begins(id, "so:"@) {
        assert(id.subrange(0, 3)[0] == 's');
        assert(id.subrange(0, 3)[1] == 'o');
    }
    if begins(id, "verify:"@) {
        assert(id.subrange(0, 7)[0] == 'v');
    }
    if begins(id, "de:"@) {
        assert(id.subrange(0, 3)[0] == 'd');
    }
}

/// A click on a headcount or a run means something only where its second part is a number
/// and its third part is one of the known actions, which alone tells what is meant.
pub proof fn clicks_mean_their_action(id: Seq<char>, n: int, action: Seq<char>)
    requires
        split_at_char(id, ':').len() >= 3,
        int_value(split_at_char(id, ':')[1]) == Some(n),
        i32::MIN <= n <= i32::MAX,
        split_at_char(id, ':')[2] == action,
    ensures
        headcount_click_of(id) == Some((n, HeadcountClick::Start)) <==> action == "start"@,
        headcount_click_of(id) == Some((n, HeadcountClick::Cancel)) <==> action == "cancel"@,
        headcount_click_of(id) is Some <==> action == "start"@ || action == "cancel"@,
        headcount_form_of(id) == Some(n) <==> action == "confirmstart"@,
        headcount_form_of(id) is Some <==> action == "confirmstart"@,
        run_click_of(id) == Some((n, RunClick::ControlPanel)) <==> action == "cp"@,
        run_click_of(id) == Some((n, RunClick::Location)) <==> action == "loc"@,
        run_click_of(id) == Some((n, RunClick::Party)) <==> action == "party"@,
        run_click_of(id) == Some((n, RunClick::Transfer)) <==> action == "transfer"@,
        run_click_of(id) == Some((n, RunClick::TransferPick)) <==> action == "xfer"@,
        run_click_of(id) == Some((n, RunClick::End)) <==> action == "end"@,
        run_form_of(id) == Some((n, RunForm::Location)) <==> action == "loc"@,
        run_form_of(id) == Some((n, RunForm::Party)) <==> action == "party"@,
        run_form_of(id) is Some <==> action == "loc"@ || action == "party"@,
{
    reveal_strlit("start");
    reveal_strlit("cancel");
    reveal_strlit("cp");
    reveal_strlit("loc");
    reveal_strlit("party");
    reveal_strlit("transfer");
    reveal_strlit("xfer");
    reveal_strlit("end");
    assert("start"@[0] == 's' && "cancel"@[0] == 'c' && "cp"@[0] == 'c' && "cp"@[1] == 'p');
    assert("loc"@[0] == 'l' && "party"@[0] == 'p' && "transfer"@[0] == 't' && "xfer"@[0] == 'x'
        && "end"@[0] == 'e');
}

/// A click whose second part is no number means nothing.
pub proof fn clicks_need_a_number(id: Seq<char>)
    requires
        split_at_char(id, ':').len() < 3 || int_value(split_at_char(id, ':')[1]) is None,
    ensures
        headcount_click_of(id) is None,
        headcount_form_of(id) is None,
        run_click_of(id) is None,
        run_form_of(id) is None,
{
}

/// A form for a start is read exactly where it names itself so and both its tier and its
/// dungeon are numbers; a click on the start button, a page or a pick exactly where it
/// names itself so and its tier is a number.
pub proof fn start_clicks_mean_what_they_name(id: Seq<char>)
    ensures
        ({
            let parts = split_at_char(id, ':');
            let number = |i: int|
                int_value(parts[i]) is Some && i32::MIN <= int_value(parts[i])->0 <= i32::MAX;
            let click = so_click_of(id);
            let form = so_form_of(id);
            &&& form is Some <==> parts.len() >= 4 && parts[1] == "start"@ && number(2) && number(3)
            &&& form is Some ==> form->0 == (int_value(parts[2])->0, int_value(parts[3])->0)
            &&& click is Some <==> parts.len() >= 3 && number(2) && (parts[1] == "btn"@ || parts[1]
                == "page"@ || parts[1] == "dpick"@)
            &&& click is Some ==> (click->0).0 == int_value(parts[2])->0
            &&& click is Some && parts[1] == "btn"@ ==> (click->0).1 is Open
            &&& click is Some && parts[1] == "page"@ ==> (click->0).1 is Page
            &&& click is Some && parts[1] == "dpick"@ ==> (click->0).1 is Pick
        }),
{
    reveal_strlit("btn");
    reveal_strlit("page");
    reveal_strlit("dpick");
    assert("btn"@.len() == 3 && "page"@.len() == 4 && "dpick"@.len() == 5);
}

/// A click in the editor of a dungeon means what it names, for the dungeon or the reaction
/// whose number it carries; what it does not name means nothing.
pub proof fn editor_clicks_mean_what_they_name(id: Seq<char>, n: int)
    requires
        split_at_char(id, ':').len() == 3,
        int_value(split_at_char(id, ':')[2]) == Some(n),
        i32::MIN <= n <= i32::MAX,
    ensures
        ({
            let what = split_at_char(id, ':')[1];
            let click = edit_click_of(id);
            &&& click == Some(EditClickView::Tiers(n)) <==> what == "tiers"@
            &&& click == Some(EditClickView::Scalars(n)) <==> what == "scalars"@
            &&& click == Some(EditClickView::Voice(n)) <==> what == "vc"@
            &&& click == Some(EditClickView::Tune(n)) <==> what == "tune"@
            &&& click == Some(EditClickView::TunePick(n)) <==> what == "tunepick"@
            &&& click == Some(EditClickView::Back(n)) <==> what == "back"@
            &&& click == Some(EditClickView::Done) <==> what == "done"@
            &&& !(click matches Some(EditClickView::Reactions(_, _)))
        }),
{
    reveal_strlit("done");
    reveal_strlit("react");
    reveal_strlit("tiers");
    reveal_strlit("scalars");
    reveal_strlit("vc");
    reveal_strlit("tune");
    reveal_strlit("tunepick");
    reveal_strlit("back");
    assert("done"@[0] == 'd' && "react"@[0] == 'r' && "tiers"@[0] == 't' && "tiers"@[1] == 'i');
    assert("scalars"@[0] == 's' && "vc"@[0] == 'v' && "back"@[0] == 'b');
    assert("tune"@[1] == 'u' && "tune"@.len() == 4 && "tunepick"@.len() == 8 && "tunepick"@[1]
        == 'u' && "tune"@[0] == 't' && "tunepick"@[0] == 't');
}

} // verus!
