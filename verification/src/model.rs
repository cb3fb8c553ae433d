//! The discrete vocabulary the game speaks about its agents: civilian status,
//! travel state, unit kind, state and orders, and the actions an authored
//! behaviour can decide on — with the words the panels use for each.
use vstd::prelude::*;

verus! {

/// Where a household or a person stands in the incident.
#[derive(Debug, Clone, Copy, PartialEq, Eq, Structural)]
pub enum Status {
    Normal,
    Warned,
    Preparing,
    Evacuating,
    Evacuated,
    Defending,
    Trapped,
    Casualty,
}

pub open spec fn status_words(s: Status) -> Seq<char> {
    match s {
        Status::Normal => "normal"@,
        Status::Warned => "warned"@,
        Status::Preparing => "preparing"@,
        Status::Evacuating => "evacuating"@,
        Status::Evacuated => "evacuated / safe"@,
        Status::Defending => "defending"@,
        Status::Trapped => "trapped"@,
        Status::Casualty => "casualty"@,
    }
}

/// The inspector's and the event log's word for a status.
pub fn status_text(s: Status) -> (r: &'static str)
    ensures
        r@ == status_words(s),
{
    match s {
        Status::Normal => "normal",
        Status::Warned => "warned",
        Status::Preparing => "preparing",
        Status::Evacuating => "evacuating",
        Status::Evacuated => "evacuated / safe",
        Status::Defending => "defending",
        Status::Trapped => "trapped",
        Status::Casualty => "casualty",
    }
}

/// Where a group on the move is.
#[derive(Debug, Clone, Copy, PartialEq, Eq, Structural)]
pub enum TravelState {
    Approaching,
    OnNetwork,
    Safe,
    Cutoff,
    Arrived,
    Dead,
}

pub open spec fn travel_words(s: TravelState) -> Seq<char> {
    match s {
        TravelState::Approaching => "walking to the road"@,
        TravelState::OnNetwork => "on the network"@,
        TravelState::Safe => "at a refuge / off the map"@,
        TravelState::Cutoff => "cut off — no route out"@,
        TravelState::Arrived => "reached home"@,
        TravelState::Dead => "casualty"@,
    }
}

/// The inspector's and the event log's word for a travel state.
pub fn travel_state_text(s: TravelState) -> (r: &'static str)
    ensures
        r@ == travel_words(s),
{
    match s {
        TravelState::Approaching => "walking to the road",
        TravelState::OnNetwork => "on the network",
        TravelState::Safe => "at a refuge / off the map",
        TravelState::Cutoff => "cut off — no route out",
        TravelState::Arrived => "reached home",
        TravelState::Dead => "casualty",
    }
}

/// How a household would hear a warning.
#[derive(Debug, Clone, Copy, PartialEq, Eq, Structural)]
pub enum WarningChannel {
    MobileAlert,
    Siren,
    Neighbour,
    SelfObserved,
    Nothing,
}

pub open spec fn channel_words(c: WarningChannel) -> Seq<char> {
    match c {
        WarningChannel::MobileAlert => "mobile alert"@,
        WarningChannel::Siren => "siren"@,
        WarningChannel::Neighbour => "neighbour"@,
        WarningChannel::SelfObserved => "self-observed"@,
        WarningChannel::Nothing => "none"@,
    }
}

/// The inspector's word for a warning channel.
pub fn channel_text(c: WarningChannel) -> (r: &'static str)
    ensures
        r@ == channel_words(c),
{
    match c {
        WarningChannel::MobileAlert => "mobile alert",
        WarningChannel::Siren => "siren",
        WarningChannel::Neighbour => "neighbour",
        WarningChannel::SelfObserved => "self-observed",
        WarningChannel::Nothing => "none",
    }
}

/// What a household always said it would do.
#[derive(Debug, Clone, Copy, PartialEq, Eq, Structural)]
pub enum Intent {
    LeaveEarly,
    WaitAndSee,
    StayDefend,
}

pub open spec fn intent_words(i: Intent) -> Seq<char> {
    match i {
        Intent::LeaveEarly => "leave early"@,
        Intent::WaitAndSee => "wait and see"@,
        Intent::StayDefend => "stay and defend"@,
    }
}

/// The inspector's words for an intent.
pub fn intent_text(i: Intent) -> (r: &'static str)
    ensures
        r@ == intent_words(i),
{
    match i {
        Intent::LeaveEarly => "leave early",
        Intent::WaitAndSee => "wait and see",
        Intent::StayDefend => "stay and defend",
    }
}

pub open spec fn intent_keys(i: Intent) -> Seq<char> {
    match i {
        Intent::LeaveEarly => "leave_early"@,
        Intent::WaitAndSee => "wait_and_see"@,
        Intent::StayDefend => "stay_defend"@,
    }
}

/// The control API's key for an intent.
pub fn intent_key(i: Intent) -> (r: &'static str)
    ensures
        r@ == intent_keys(i),
{
    match i {
        Intent::LeaveEarly => "leave_early",
        Intent::WaitAndSee => "wait_and_see",
        Intent::StayDefend => "stay_defend",
    }
}

/// What a suppression unit is.
#[derive(Debug, Clone, Copy, PartialEq, Eq, Structural)]
pub enum UnitKind {
    Engine,
    HandCrew,
    AirTanker,
}

impl UnitKind {
    /// Whether this unit works from the air.
    pub fn is_air(self) -> (r: bool)
        ensures
            r == (self == UnitKind::AirTanker),
    {
        match self {
            UnitKind::AirTanker => true,
            _ => false,
        }
    }
}

/// What a suppression unit is doing.
#[derive(Debug, Clone, Copy, PartialEq, Eq, Structural)]
pub enum UnitState {
    Staged,
    Responding,
    Working,
    Refilling,
    Withdrawing,
    Inbound,
    Lost,
}

/// What a unit has been ordered to do, without the place it was ordered to.
#[derive(Debug, Clone, Copy, PartialEq, Eq, Structural)]
pub enum TaskKind {
    Hold,
    Return,
    Attack,
    Drop,
    Line,
}

pub open spec fn task_words(t: TaskKind) -> Seq<char> {
    match t {
        TaskKind::Hold => "hold"@,
        TaskKind::Return => "return"@,
        TaskKind::Attack => "attack"@,
        TaskKind::Drop => "drop"@,
        TaskKind::Line => "line"@,
    }
}

/// The bare tag for an order, as the roster listing and the event log give it.
pub fn task_kind(t: TaskKind) -> (r: &'static str)
    ensures
        r@ == task_words(t),
{
    match t {
        TaskKind::Hold => "hold",
        TaskKind::Return => "return",
        TaskKind::Attack => "attack",
        TaskKind::Drop => "drop",
        TaskKind::Line => "line",
    }
}

/// An order, with its place: the bit patterns of the target's coordinates
/// (the start and end of a line; the point, then zeros, for an attack or a
/// drop; zeros for hold and return), so two orders are the same exactly when
/// they name the same place.
#[derive(Debug, Clone, Copy, PartialEq, Eq, Structural)]
pub struct Task {
    pub kind: TaskKind,
    pub x0: u32,
    pub y0: u32,
    pub x1: u32,
    pub y1: u32,
}

/// What an authored behaviour decided, across the three kinds of agent.
#[derive(Debug, Clone, Copy, PartialEq, Eq, Structural)]
pub enum ActionKind {
    Stay,
    Prepare,
    EvacuateNow,
    Defend,
    Shelter,
    Continue,
    HoldPosition,
    ReturnToBase,
    Refill,
    Withdraw,
    Remain,
    WalkOut,
    HeadHome,
    TakeShelter,
}

/// The five hues actions share, matched by meaning: nothing changed, getting
/// ready, moving, committing to the job, the dangerous one.
pub open spec fn action_rgb(a: ActionKind) -> [u8; 3] {
    match a {
        ActionKind::Stay | ActionKind::Continue | ActionKind::Remain => [0x5a, 0x60, 0x68],
        ActionKind::Prepare | ActionKind::HoldPosition => [0xd8, 0xa6, 0x4b],
        ActionKind::EvacuateNow | ActionKind::ReturnToBase | ActionKind::WalkOut => [
            0x6f,
            0xb1,
            0xe8,
        ],
        ActionKind::Defend | ActionKind::Refill | ActionKind::HeadHome => [0x7a, 0xb2, 0x8a],
        ActionKind::Shelter | ActionKind::Withdraw | ActionKind::TakeShelter => [0xe0, 0x6c, 0x5f],
    }
}

/// One colour per action, shared by the proposal list, the trace and the
/// sweep strip; see [`action_rgb`].
pub fn action_colour(a: ActionKind) -> (r: [u8; 3])
    ensures
        r == action_rgb(a),
{
    match a {
        ActionKind::Stay | ActionKind::Continue | ActionKind::Remain => [0x5a, 0x60, 0x68],
        ActionKind::Prepare | ActionKind::HoldPosition => [0xd8, 0xa6, 0x4b],
        ActionKind::EvacuateNow | ActionKind::ReturnToBase | ActionKind::WalkOut => [
            0x6f,
            0xb1,
            0xe8,
        ],
        ActionKind::Defend | ActionKind::Refill | ActionKind::HeadHome => [0x7a, 0xb2, 0x8a],
        ActionKind::Shelter | ActionKind::Withdraw | ActionKind::TakeShelter => [0xe0, 0x6c, 0x5f],
    }
}

/// Who an event or a selection is about.
#[derive(Debug, Clone, Copy, PartialEq, Eq, Structural)]
pub enum Subject {
    Household(usize),
    Person(usize),
    Traveller(usize),
    Unit(usize),
    Command,
}

} // verus!
