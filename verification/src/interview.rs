//! Talking to one simulated agent: who is being interviewed, what is in
//! flight, the personas kept for the life of the process, and what each
//! finished request leaves on the panel.
//!
//! Opening an interview pauses the incident once: the agent answers as of
//! one instant. A transcript lives as long as the run; a persona outlives it,
//! because an agent's baked traits are the same in every run. `P` is a
//! persona.
use vstd::prelude::*;
use crate::recall::{SubjectKind, SubjectRef};
use crate::text::{str_eq, trim, trimmed, decimal, decimal_string};

verus! {

/// What a request in flight is for, so its answer can be routed.
#[derive(Debug, Clone, Copy, PartialEq, Eq, Structural)]
pub enum Job {
    /// Inventing the person, before the first question.
    Persona,
    /// Answering a question.
    Reply,
    /// The settings dialog's test.
    Test,
    /// Listing the provider's models.
    Models,
}

/// A request in flight.
struct Pending {
    job: Job,
    subject: SubjectRef,
    /// The reply so far, for the streaming bubble.
    partial: String,
}

/// The interview panel's state.
pub struct Interview<P> {
    open: bool,
    settings_open: bool,
    /// Who is being interviewed; nobody before anything was selected.
    subject: Option<SubjectRef>,
    input: String,
    models: Vec<String>,
    model_search: String,
    model_status: String,
    /// A line under the transcript: the last failure, or what is happening.
    status: String,
    /// The settings dialog's own result line.
    settings_status: String,
    personas: Vec<(String, SubjectRef, P)>,
    pending: Option<Pending>,
    selftest: bool,
    pause_on_open: bool,
}

/// The panel's visible state, its texts as values.
pub struct PanelView {
    pub open: bool,
    pub settings_open: bool,
    pub subject: Option<SubjectRef>,
    pub input: Seq<char>,
    pub models: Seq<Seq<char>>,
    /// The text typed into the model picker's search.
    pub model_search: Seq<char>,
    pub model_status: Seq<char>,
    pub status: Seq<char>,
    pub settings_status: Seq<char>,
}

impl<P> View for Interview<P> {
    type V = PanelView;

    closed spec fn view(&self) -> PanelView {
        PanelView {
            open: self.open,
            settings_open: self.settings_open,
            subject: self.subject,
            input: self.input@,
            models: self.models@.map_values(|m: String| m@),
            model_search: self.model_search@,
            model_status: self.model_status@,
            status: self.status@,
            settings_status: self.settings_status@,
        }
    }
}

/// What the caller has to do with a finished request.
pub enum FollowUp {
    Nothing,
    /// Build a persona for this agent from the model's text.
    ParsePersona(SubjectRef, String),
    /// The persona request failed: this agent is interviewed unnamed.
    Anonymous(SubjectRef),
    /// File the agent's answer in the run's transcript.
    Record(SubjectRef, String),
}

/// One line of a transcript, as the self-test reads it.
pub struct Said {
    /// The agent said it, rather than the interviewer.
    pub assistant: bool,
    pub content: String,
}

/// The self-test's next step.
#[derive(Debug, Clone, PartialEq, Eq)]
pub enum SelfTest {
    /// Not running, or waiting on a request in flight.
    Idle,
    /// Nothing is selected to interview.
    NothingSelected,
    /// The model settings are not usable; why.
    NotReady(String),
    /// Meet the agent: ask for a persona.
    Meet(SubjectRef),
    /// Put the opening question to the agent.
    Ask(SubjectRef),
    /// The transcript has an answer: the test is over, and passed when
    /// the agent actually said something.
    Report(bool),
    /// The answer failed; the status line says why.
    Failed(String),
    /// Nothing to do yet.
    Wait,
}

/// Whether the agent has said anything with content in a transcript.
pub open spec fn answered(t: Seq<Said>) -> bool {
    exists|i: int| 0 <= i < t.len() && #[trigger] t[i].assistant && trimmed(t[i].content@).len() > 0
}

/// Whether the agent has said anything at all.
pub open spec fn replied(t: Seq<Said>) -> bool {
    exists|i: int| 0 <= i < t.len() && #[trigger] t[i].assistant
}

/// How an unattended run asked the interview to open.
#[derive(Debug, Clone, Copy, PartialEq, Eq, Structural)]
pub enum EnvOpen {
    /// The settings dialog.
    Settings,
    /// On the selected agent; bring the chat tab forward.
    Opened,
    /// Nothing is selected to interview.
    NothingSelected,
    /// No incident is running yet.
    NoIncident,
}

pub open spec fn key_matches<P>(entry: (String, SubjectRef, P), scenario: Seq<char>, subject: SubjectRef) -> bool {
    entry.0@ == scenario && entry.1 == subject
}

/// The persona kept for an agent of a scenario: the entry for that pair,
/// searching from the `i`th.
pub open spec fn persona_in<P>(table: Seq<(String, SubjectRef, P)>, scenario: Seq<char>, subject: SubjectRef, i: int) -> Option<P>
    decreases table.len() - i,
{
    if i < 0 || i >= table.len() {
        None
    } else if key_matches(table[i], scenario, subject) {
        Some(table[i].2)
    } else {
        persona_in(table, scenario, subject, i + 1)
    }
}

/// The panel opened on `subject`: a half-typed question and the status line
/// belong to the agent they were about, so another agent starts them empty.
pub open spec fn opened_view(v: PanelView, subject: SubjectRef) -> PanelView {
    PanelView {
        open: true,
        subject: Some(subject),
        input: if v.subject == Some(subject) {
            v.input
        } else {
            Seq::empty()
        },
        status: if v.subject == Some(subject) {
            v.status
        } else {
            Seq::empty()
        },
        ..v
    }
}

/// Whom a settings request is filed under: the agent being interviewed,
/// or household 0.
pub open spec fn settings_subject(subject: Option<SubjectRef>) -> SubjectRef {
    match subject {
        Some(s) => s,
        None => SubjectRef { kind: SubjectKind::Household, id: 0 },
    }
}

impl<P> Interview<P> {
    pub closed spec fn table(&self) -> Seq<(String, SubjectRef, P)> {
        self.personas@
    }

    /// The job and agent of the request in flight, if any.
    pub closed spec fn in_flight(&self) -> Option<(Job, SubjectRef)> {
        match self.pending {
            Some(p) => Some((p.job, p.subject)),
            None => None,
        }
    }

    /// The streamed reply so far.
    pub closed spec fn partial(&self) -> Seq<char> {
        match self.pending {
            Some(p) => p.partial@,
            None => Seq::empty(),
        }
    }

    /// The next frame that draws the panel pauses the incident.
    pub closed spec fn pause_pending(&self) -> bool {
        self.pause_on_open
    }

    pub closed spec fn self_testing(&self) -> bool {
        self.selftest
    }

    /// The persona kept for `subject` in `scenario`.
    pub open spec fn kept(&self, scenario: Seq<char>, subject: SubjectRef) -> Option<P> {
        persona_in(self.table(), scenario, subject, 0)
    }

    /// A closed panel, nothing in flight, no personas; `config_error` is what
    /// reading the saved settings complained of, if anything.
    pub fn new(config_error: Option<&str>) -> (r: Interview<P>)
        ensures
            !r@.open,
            !r@.settings_open,
            r@.subject.is_none(),
            r@.input == Seq::<char>::empty(),
            r@.model_search == Seq::<char>::empty(),
            r@.status == match config_error {
                Some(e) => "LLM settings: "@ + e@,
                None => Seq::<char>::empty(),
            },
            r.in_flight().is_none(),
            r.table().len() == 0,
            !r.pause_pending(),
            !r.self_testing(),
    {
        let status = match config_error {
            Some(e) => {
                let mut s = String::from_str("LLM settings: ");
                s.append(e);
                s
            },
            None => String::new(),
        };
        Interview {
            open: false,
            settings_open: false,
            subject: None,
            input: String::new(),
            models: Vec::new(),
            model_search: String::new(),
            model_status: String::new(),
            status,
            settings_status: String::new(),
            personas: Vec::new(),
            pending: None,
            selftest: false,
            pause_on_open: false,
        }
    }

    /// The panel is open.
    pub fn is_open(&self) -> (r: bool)
        ensures
            r == self@.open,
    {
        self.open
    }

    /// Close or reopen the panel without changing who it is about.
    pub fn set_open(&mut self, open: bool)
        ensures
            final(self)@ == (PanelView { open, ..old(self)@ }),
            final(self).in_flight() == old(self).in_flight(),
            final(self).table() == old(self).table(),
    {
        self.open = open;
    }

    pub fn settings_open(&self) -> (r: bool)
        ensures
            r == self@.settings_open,
    {
        self.settings_open
    }

    pub fn set_settings_open(&mut self, open: bool)
        ensures
            final(self)@ == (PanelView { settings_open: open, ..old(self)@ }),
            final(self).in_flight() == old(self).in_flight(),
            final(self).table() == old(self).table(),
    {
        self.settings_open = open;
    }

    /// Who is being interviewed.
    pub fn subject(&self) -> (r: Option<SubjectRef>)
        ensures
            r == self@.subject,
    {
        self.subject
    }

    /// The question being typed.
    pub fn input(&self) -> (r: &str)
        ensures
            r@ == self@.input,
    {
        self.input.as_str()
    }

    pub fn set_input(&mut self, input: String)
        ensures
            final(self)@ == (PanelView { input: input@, ..old(self)@ }),
            final(self).in_flight() == old(self).in_flight(),
            final(self).table() == old(self).table(),
    {
        self.input = input;
    }

    /// The text typed into the model picker's search.
    pub fn model_search(&self) -> (r: &str)
        ensures
            r@ == self@.model_search,
    {
        self.model_search.as_str()
    }

    pub fn set_model_search(&mut self, search: String)
        ensures
            final(self)@ == (PanelView { model_search: search@, ..old(self)@ }),
            final(self).in_flight() == old(self).in_flight(),
            final(self).table() == old(self).table(),
    {
        self.model_search = search;
    }

    /// The models the provider offers, as last listed.
    pub fn models(&self) -> (r: &Vec<String>)
        ensures
            r@.map_values(|m: String| m@) == self@.models,
    {
        &self.models
    }

    pub fn model_status(&self) -> (r: &str)
        ensures
            r@ == self@.model_status,
    {
        self.model_status.as_str()
    }

    /// The line under the transcript.
    pub fn status(&self) -> (r: &str)
        ensures
            r@ == self@.status,
    {
        self.status.as_str()
    }

    pub fn set_status(&mut self, status: String)
        ensures
            final(self)@ == (PanelView { status: status@, ..old(self)@ }),
            final(self).in_flight() == old(self).in_flight(),
            final(self).table() == old(self).table(),
    {
        self.status = status;
    }

    pub fn settings_status(&self) -> (r: &str)
        ensures
            r@ == self@.settings_status,
    {
        self.settings_status.as_str()
    }

    pub fn set_settings_status(&mut self, status: String)
        ensures
            final(self)@ == (PanelView { settings_status: status@, ..old(self)@ }),
            final(self).in_flight() == old(self).in_flight(),
            final(self).table() == old(self).table(),
    {
        self.settings_status = status;
    }

    /// The job in flight, if any.
    pub fn pending_job(&self) -> (r: Option<Job>)
        ensures
            r == match self.in_flight() {
                Some((j, _)) => Some(j),
                None => None,
            },
    {
        match &self.pending {
            Some(p) => Some(p.job),
            None => None,
        }
    }

    /// The reply streamed so far.
    pub fn partial_reply(&self) -> (r: &str)
        ensures
            r@ == self.partial(),
    {
        proof {
            reveal_strlit("");
        }
        match &self.pending {
            Some(p) => p.partial.as_str(),
            None => "",
        }
    }

    /// A request is in flight.
    pub fn busy(&self) -> (r: bool)
        ensures
            r == self.in_flight().is_some(),
    {
        self.pending.is_some()
    }

    /// Open the panel on one agent. A half-typed question, a streaming reply
    /// and the status line belong to the agent they were about, so switching
    /// agents drops them; opening a closed panel pauses the incident once.
    pub fn open_for(&mut self, subject: SubjectRef)
        ensures
            final(self)@.open,
            final(self)@.subject == Some(subject),
            old(self)@.subject != Some(subject) ==> final(self)@.input.len() == 0
                && final(self)@.status.len() == 0 && final(self).in_flight().is_none(),
            old(self)@.subject == Some(subject) ==> final(self)@.input == old(self)@.input
                && final(self)@.status == old(self)@.status && final(self).in_flight()
                == old(self).in_flight(),
            final(self).pause_pending() == (old(self).pause_pending() || !old(self)@.open),
            final(self).table() == old(self).table(),
            final(self)@ == opened_view(old(self)@, subject),
            final(self).self_testing() == old(self).self_testing(),
    {
        let same = match self.subject {
            Some(s) => s == subject,
            None => false,
        };
        if !same {
            self.input = String::new();
            self.pending = None;
            self.status = String::new();
        }
        if !self.open {
            self.pause_on_open = true;
        }
        self.subject = Some(subject);
        self.open = true;
    }

    /// Whether this frame should pause the incident: once after opening.
    pub fn take_pause(&mut self) -> (r: bool)
        ensures
            r == old(self).pause_pending(),
            !final(self).pause_pending(),
            final(self).in_flight() == old(self).in_flight(),
            final(self).table() == old(self).table(),
            final(self)@ == old(self)@,
            final(self).self_testing() == old(self).self_testing(),
    {
        let r = self.pause_on_open;
        self.pause_on_open = false;
        r
    }

    /// The persona kept for an agent of a scenario.
    pub fn persona_for(&self, scenario: &str, subject: SubjectRef) -> (r: Option<&P>)
        ensures
            match r {
                Some(p) => self.kept(scenario@, subject) == Some(*p),
                None => self.kept(scenario@, subject).is_none(),
            },
    {
        let n = self.personas.len();
        let mut i: usize = 0;
        while i < n
            invariant
                n == self.personas@.len(),
                i <= n,
                persona_in(self.personas@, scenario@, subject, i as int) == persona_in(
                    self.personas@,
                    scenario@,
                    subject,
                    0,
                ),
            decreases n - i,
        {
            let entry = &self.personas[i];
            if str_eq(entry.0.as_str(), scenario) && entry.1 == subject {
                return Some(&entry.2);
            }
            i = i + 1;
        }
        None
    }

    /// Keep a persona for an agent of a scenario, replacing any kept before.
    pub fn remember(&mut self, scenario: &str, subject: SubjectRef, persona: P)
        ensures
            final(self).kept(scenario@, subject) == Some(persona),
            forall|sc: Seq<char>, su: SubjectRef|
                !(sc == scenario@ && su == subject) ==> #[trigger] final(self).kept(sc, su)
                    == old(self).kept(sc, su),
            final(self).in_flight() == old(self).in_flight(),
            final(self)@.open == old(self)@.open,
            final(self)@.subject == old(self)@.subject,
            final(self)@ == old(self)@,
            final(self).self_testing() == old(self).self_testing(),
            final(self).pause_pending() == old(self).pause_pending(),
    {
        let n = self.personas.len();
        let mut i: usize = 0;
        while i < n
            invariant
                n == self.personas@.len(),
                i <= n,
                *self == *old(self),
                forall|j: int| 0 <= j < i ==> !key_matches(#[trigger] self.personas@[j], scenario@, subject),
            decreases n - i,
        {
            if str_eq(self.personas[i].0.as_str(), scenario) && self.personas[i].1 == subject {
                let ghost before = self.personas@;
                let entry = (String::from_str(scenario), subject, persona);
                self.personas.set(i, entry);
                proof {
                    lemma_replaced(before, self.personas@, i as int, scenario@, subject);
                }
                return;
            }
            i = i + 1;
        }
        let ghost before = self.personas@;
        self.personas.push((String::from_str(scenario), subject, persona));
        proof {
            lemma_appended(before, self.personas@, scenario@, subject);
        }
    }

    /// A restart drops an answer in flight — it would be filed against the
    /// new run's log as if the new agent had said it — and says so; an open
    /// panel says its transcript went with the run.
    pub fn restart(&mut self)
        ensures
            final(self).in_flight().is_none(),
            old(self).in_flight().is_some() ==> final(self)@.status
                == "the incident was restarted while that answer was in flight — it was dropped"@,
            old(self).in_flight().is_none() && old(self)@.open ==> final(self)@.status
                == "the incident was restarted: this transcript went with the run it was about."@,
            old(self).in_flight().is_none() && !old(self)@.open ==> final(self)@.status
                == old(self)@.status,
            final(self).table() == old(self).table(),
            final(self)@.open == old(self)@.open,
            final(self)@ == (PanelView { status: final(self)@.status, ..old(self)@ }),
            final(self).self_testing() == old(self).self_testing(),
            final(self).pause_pending() == old(self).pause_pending(),
    {
        if self.pending.is_some() {
            self.pending = None;
            self.status = String::from_str(
                "the incident was restarted while that answer was in flight — it was dropped",
            );
        } else if self.open {
            self.status = String::from_str(
                "the incident was restarted: this transcript went with the run it was about.",
            );
        }
    }

    /// The `T` key: interview whatever is selected (`subject`), unless a
    /// widget takes keystrokes. Returns whether the interview opened.
    pub fn shortcut(&mut self, typing: bool, pressed: bool, subject: Option<SubjectRef>) -> (opened:
        bool)
        ensures
            opened == (!typing && pressed && subject.is_some()),
            opened ==> final(self)@.open && final(self)@.subject == subject,
            !typing && pressed && subject.is_none() ==> final(self)@.status
                == "select an agent on the map first"@,
            (typing || !pressed) ==> final(self)@.status == old(self)@.status && final(self)@.open
                == old(self)@.open,
            final(self).table() == old(self).table(),
            (typing || !pressed) ==> final(self)@ == old(self)@,
            !typing && pressed ==> final(self)@ == match subject {
                Some(s) => opened_view(old(self)@, s),
                None => PanelView { status: "select an agent on the map first"@, ..old(self)@ },
            },
            final(self).self_testing() == old(self).self_testing(),
    {
        if typing || !pressed {
            return false;
        }
        match subject {
            Some(s) => {
                self.open_for(s);
                true
            },
            None => {
                self.status = String::from_str("select an agent on the map first");
                false
            },
        }
    }

    /// An unattended run's request: `settings` opens the settings dialog;
    /// anything else interviews the selected agent (`subject`) once an
    /// incident runs, and `selftest` also drives one whole interview.
    pub fn from_env(&mut self, spec: &str, incident: bool, subject: Option<SubjectRef>) -> (r: EnvOpen)
        ensures
            spec@ == "settings"@ ==> r == EnvOpen::Settings && final(self)@.settings_open,
            spec@ != "settings"@ && !incident ==> r == EnvOpen::NoIncident,
            spec@ != "settings"@ && incident ==> final(self).self_testing() == (spec@ == "selftest"@),
            spec@ != "settings"@ && incident && subject.is_some() ==> r == EnvOpen::Opened
                && final(self)@.open && final(self)@.subject == subject,
            spec@ != "settings"@ && incident && subject.is_none() ==> r == EnvOpen::NothingSelected,
            spec@ == "settings"@ ==> final(self)@ == (PanelView { settings_open: true, ..old(self)@ })
                && final(self).self_testing() == old(self).self_testing(),
            spec@ != "settings"@ && !incident ==> final(self)@ == old(self)@ && final(self).self_testing()
                == old(self).self_testing(),
            spec@ != "settings"@ && incident ==> final(self)@ == match subject {
                Some(s) => opened_view(old(self)@, s),
                None => old(self)@,
            },
            final(self).table() == old(self).table(),
    {
        if str_eq(spec, "settings") {
            self.settings_open = true;
            return EnvOpen::Settings;
        }
        if !incident {
            return EnvOpen::NoIncident;
        }
        let r = match subject {
            Some(s) => {
                self.open_for(s);
                EnvOpen::Opened
            },
            None => EnvOpen::NothingSelected,
        };
        self.selftest = str_eq(spec, "selftest");
        r
    }

    /// Send a request for `job` about `subject`, unless one is in flight.
    /// Asking a question empties the question box.
    pub fn begin(&mut self, job: Job, subject: SubjectRef) -> (started: bool)
        ensures
            started == old(self).in_flight().is_none(),
            started ==> final(self).in_flight() == Some((job, subject)) && final(self).partial().len() == 0,
            !started ==> final(self).in_flight() == old(self).in_flight(),
            started && job == Job::Reply ==> final(self)@.input.len() == 0,
            !(started && job == Job::Reply) ==> final(self)@.input == old(self)@.input,
            final(self).table() == old(self).table(),
            final(self)@ == (PanelView { input: final(self)@.input, ..old(self)@ }),
            final(self).self_testing() == old(self).self_testing(),
            final(self).pause_pending() == old(self).pause_pending(),
    {
        if self.pending.is_some() {
            return false;
        }
        if job == Job::Reply {
            self.input = String::new();
        }
        self.pending = Some(Pending { job, subject, partial: String::new() });
        true
    }

    /// The settings dialog's save button: the settings were written, or
    /// why not.
    pub fn settings_saved(&mut self, result: Result<(), String>)
        ensures
            final(self)@ == (PanelView {
                settings_status: match result {
                    Ok(()) => "Saved."@,
                    Err(e) => "✖ could not save: "@ + e@,
                },
                ..old(self)@
            }),
            final(self).in_flight() == old(self).in_flight(),
            final(self).table() == old(self).table(),
    {
        let status = match result {
            Ok(()) => String::from_str("Saved."),
            Err(e) => {
                let mut s = String::from_str("✖ could not save: ");
                s.append(e.as_str());
                s
            },
        };
        self.settings_status = status;
    }

    /// Ask the provider for its models, unless a request is in flight; the
    /// request is filed under the agent being interviewed, or household 0
    /// when there is none.
    pub fn request_models(&mut self) -> (started: bool)
        ensures
            started == old(self).in_flight().is_none(),
            started ==> final(self).in_flight() == Some((Job::Models, settings_subject(old(self)@.subject)))
                && final(self)@ == (PanelView { model_status: "loading models…"@, ..old(self)@ }),
            !started ==> final(self)@ == old(self)@ && final(self).in_flight() == old(self).in_flight(),
            final(self).table() == old(self).table(),
    {
        if self.pending.is_some() {
            return false;
        }
        self.model_status = String::from_str("loading models…");
        let subject = match self.subject {
            Some(s) => s,
            None => SubjectRef { kind: SubjectKind::Household, id: 0 },
        };
        self.begin(Job::Models, subject)
    }

    /// The settings dialog's test button, unless a request is in flight:
    /// settings that are not usable say why (`readiness`); usable ones send
    /// a short question.
    pub fn request_test(&mut self, readiness: Result<(), String>) -> (started: bool)
        ensures
            started == (old(self).in_flight().is_none() && readiness is Ok),
            started ==> final(self).in_flight() == Some((Job::Test, settings_subject(old(self)@.subject)))
                && final(self)@ == (PanelView { settings_status: "asking…"@, ..old(self)@ }),
            old(self).in_flight().is_some() ==> final(self)@ == old(self)@ && final(self).in_flight() == old(
                self,
            ).in_flight(),
            old(self).in_flight().is_none() ==> match readiness {
                Err(why) => final(self)@ == (PanelView { settings_status: "✖ "@ + why@, ..old(self)@ })
                    && final(self).in_flight().is_none(),
                Ok(()) => true,
            },
            final(self).table() == old(self).table(),
    {
        if self.pending.is_some() {
            return false;
        }
        match readiness {
            Err(why) => {
                let mut s = String::from_str("✖ ");
                s.append(why.as_str());
                self.settings_status = s;
                false
            },
            Ok(()) => {
                self.settings_status = String::from_str("asking…");
                let subject = match self.subject {
                    Some(s) => s,
                    None => SubjectRef { kind: SubjectKind::Household, id: 0 },
                };
                self.begin(Job::Test, subject)
            },
        }
    }

    /// A question can be sent: nothing is in flight and the question box
    /// holds more than white space.
    pub fn can_ask(&self) -> (r: bool)
        ensures
            r == (self.in_flight().is_none() && trimmed(self@.input).len() > 0),
    {
        self.pending.is_none() && trim(self.input.as_str()).unicode_len() > 0
    }

    /// Streamed text arriving for the reply in flight.
    pub fn stream(&mut self, delta: &str)
        ensures
            final(self).in_flight() == old(self).in_flight(),
            old(self).in_flight().is_some() ==> final(self).partial() == old(self).partial() + delta@,
            final(self).table() == old(self).table(),
            final(self)@ == old(self)@,
            final(self).self_testing() == old(self).self_testing(),
            final(self).pause_pending() == old(self).pause_pending(),
    {
        match &mut self.pending {
            Some(p) => p.partial.append(delta),
            None => {},
        }
    }

    /// The model list arrived, or failed to.
    pub fn models_listed(&mut self, result: Result<Vec<String>, String>)
        ensures
            final(self).in_flight().is_none(),
            match result {
                Ok(m) => final(self)@.models == m@.map_values(|x: String| x@) && final(self)@.model_status == decimal(
                    m@.len() as nat,
                ) + " models available"@,
                Err(e) => final(self)@.model_status == "✖ "@ + e@ && final(self)@.models == old(self)@.models,
            },
            final(self).table() == old(self).table(),
            final(self)@ == (PanelView {
                models: final(self)@.models,
                model_status: final(self)@.model_status,
                ..old(self)@
            }),
            final(self).self_testing() == old(self).self_testing(),
            final(self).pause_pending() == old(self).pause_pending(),
    {
        self.pending = None;
        match result {
            Ok(m) => {
                let mut s = decimal_string(m.len() as u64);
                s.append(" models available");
                self.models = m;
                self.model_status = s;
            },
            Err(e) => {
                let mut s = String::from_str("✖ ");
                s.append(e.as_str());
                self.model_status = s;
            },
        }
    }

    /// The request in flight finished with `result`; `model` names the
    /// model it was sent to. A failed persona leaves the agent unnamed
    /// rather than failing the interview.
    pub fn finished(&mut self, result: Result<String, String>, model: &str) -> (f: FollowUp)
        ensures
            final(self).in_flight().is_none(),
            final(self).table() == old(self).table(),
            match old(self).in_flight() {
                None => f is Nothing && final(self)@.status == old(self)@.status,
                Some((job, subject)) => match (job, result) {
                    (Job::Persona, Ok(text)) => (f matches FollowUp::ParsePersona(s, t) && s == subject
                        && t@ == text@),
                    (Job::Persona, Err(e)) => (f matches FollowUp::Anonymous(s) && s == subject)
                        && final(self)@.status == "no persona ("@ + e@ + ") — answering unnamed"@,
                    (Job::Reply, Ok(text)) => (f matches FollowUp::Record(s, t) && s == subject && t@
                        == text@) && final(self)@.status.len() == 0,
                    (Job::Reply, Err(e)) => f is Nothing && final(self)@.status == e@,
                    (Job::Test, Ok(text)) => f is Nothing && final(self)@.settings_status == "✔ "@
                        + model@ + " answered: "@ + trimmed(text@),
                    (Job::Test, Err(e)) => f is Nothing && final(self)@.settings_status == "✖ "@ + e@,
                    (Job::Models, _) => f is Nothing,
                },
            },
            final(self)@ == (PanelView {
                status: final(self)@.status,
                settings_status: final(self)@.settings_status,
                ..old(self)@
            }),
            match old(self).in_flight() {
                Some((Job::Test, _)) => true,
                _ => final(self)@.settings_status == old(self)@.settings_status,
            },
            match (old(self).in_flight(), result) {
                (Some((Job::Reply, _)), _) => true,
                (Some((Job::Persona, _)), Err(_)) => true,
                _ => final(self)@.status == old(self)@.status,
            },
            final(self).self_testing() == old(self).self_testing(),
            final(self).pause_pending() == old(self).pause_pending(),
    {
        let (job, subject) = match &self.pending {
            None => {
                return FollowUp::Nothing;
            },
            Some(p) => (p.job, p.subject),
        };
        self.pending = None;
        match (job, result) {
            (Job::Persona, Ok(text)) => FollowUp::ParsePersona(subject, text),
            (Job::Persona, Err(e)) => {
                let mut s = String::from_str("no persona (");
                s.append(e.as_str());
                s.append(") — answering unnamed");
                self.status = s;
                FollowUp::Anonymous(subject)
            },
            (Job::Reply, Ok(text)) => {
                self.status = String::new();
                FollowUp::Record(subject, text)
            },
            (Job::Reply, Err(e)) => {
                self.status = e;
                FollowUp::Nothing
            },
            (Job::Test, Ok(text)) => {
                let mut s = String::from_str("✔ ");
                s.append(model);
                s.append(" answered: ");
                s.append(trim(text.as_str()));
                self.settings_status = s;
                FollowUp::Nothing
            },
            (Job::Test, Err(e)) => {
                let mut s = String::from_str("✖ ");
                s.append(e.as_str());
                self.settings_status = s;
                FollowUp::Nothing
            },
            (Job::Models, _) => FollowUp::Nothing,
        }
    }

    /// The persona text did not parse: the agent is interviewed unnamed, and
    /// the status line says why.
    pub fn persona_unreadable(&mut self, why: &str)
        ensures
            final(self)@ == (PanelView { status: "could not build a persona: "@ + why@, ..old(self)@ }),
            final(self).table() == old(self).table(),
            final(self).in_flight() == old(self).in_flight(),
            final(self).self_testing() == old(self).self_testing(),
            final(self).pause_pending() == old(self).pause_pending(),
    {
        let mut s = String::from_str("could not build a persona: ");
        s.append(why);
        self.status = s;
    }

    /// The self-test has reported; it does not run again.
    pub fn end_selftest(&mut self)
        ensures
            !final(self).self_testing(),
            final(self).in_flight() == old(self).in_flight(),
            final(self)@ == old(self)@,
            final(self).table() == old(self).table(),
            final(self).pause_pending() == old(self).pause_pending(),
    {
        self.selftest = false;
    }

    /// Whether an unattended self-test is waiting for its next step.
    pub fn selftest_due(&self) -> (r: bool)
        ensures
            r == (self.self_testing() && self.in_flight().is_none()),
    {
        self.selftest && self.pending.is_none()
    }

    /// One frame of the unattended self-test: meet the agent, ask the
    /// opening question, and report on the transcript. `ready` is why the
    /// settings are unusable, if they are; `met` whether the agent has a
    /// persona; `transcript` what has been said so far.
    pub fn selftest_step(&mut self, ready: Result<(), String>, met: bool, transcript: &Vec<Said>) -> (r:
        SelfTest)
        ensures
            !old(self).self_testing() || old(self).in_flight().is_some() ==> r == SelfTest::Idle,
            old(self).self_testing() && old(self).in_flight().is_none() ==> (match old(self)@.subject {
                None => r == SelfTest::NothingSelected,
                Some(s) => match ready {
                    Err(why) => r == SelfTest::NotReady(why),
                    Ok(()) => if !met {
                        r == SelfTest::Meet(s)
                    } else if transcript@.len() == 0 {
                        r == SelfTest::Ask(s)
                    } else if replied(transcript@) {
                        r == SelfTest::Report(answered(transcript@)) && !final(self).self_testing()
                    } else if old(self)@.status.len() > 0 {
                        (r matches SelfTest::Failed(m) && m@ == old(self)@.status) && !final(self).self_testing()
                    } else {
                        r == SelfTest::Wait
                    },
                },
            }),
            final(self).in_flight() == old(self).in_flight(),
            final(self)@ == old(self)@,
    {
        if !self.selftest || self.pending.is_some() {
            return SelfTest::Idle;
        }
        let subject = match self.subject {
            None => {
                return SelfTest::NothingSelected;
            },
            Some(s) => s,
        };
        match ready {
            Err(why) => {
                return SelfTest::NotReady(why);
            },
            Ok(()) => {},
        }
        if !met {
            return SelfTest::Meet(subject);
        }
        let n = transcript.len();
        if n == 0 {
            return SelfTest::Ask(subject);
        }
        let mut any = false;
        let mut said = false;
        let mut i: usize = 0;
        while i < n
            invariant
                n == transcript@.len(),
                i <= n,
                any == (exists|j: int| 0 <= j < i && #[trigger] transcript@[j].assistant),
                said == (exists|j: int|
                    0 <= j < i && #[trigger] transcript@[j].assistant && trimmed(
                        transcript@[j].content@,
                    ).len() > 0),
            decreases n - i,
        {
            if transcript[i].assistant {
                any = true;
                if trim(transcript[i].content.as_str()).unicode_len() > 0 {
                    said = true;
                }
            }
            i = i + 1;
        }
        if any {
            self.selftest = false;
            return SelfTest::Report(said);
        }
        if self.status.unicode_len() > 0 {
            self.selftest = false;
            return SelfTest::Failed(self.status.clone());
        }
        SelfTest::Wait
    }
}

proof fn lemma_replaced<P>(
    before: Seq<(String, SubjectRef, P)>,
    after: Seq<(String, SubjectRef, P)>,
    i: int,
    scenario: Seq<char>,
    subject: SubjectRef,
)
    requires
        0 <= i < before.len(),
        after.len() == before.len(),
        forall|j: int| 0 <= j < before.len() && j != i ==> after[j] == before[j],
        key_matches(before[i], scenario, subject),
        key_matches(after[i], scenario, subject),
        forall|j: int| 0 <= j < i ==> !key_matches(#[trigger] before[j], scenario, subject),
    ensures
        persona_in(after, scenario, subject, 0) == Some(after[i].2),
        forall|sc: Seq<char>, su: SubjectRef|
            !(sc == scenario && su == subject) ==> #[trigger] persona_in(after, sc, su, 0) == persona_in(
                before,
                sc,
                su,
                0,
            ),
{
    lemma_found_at(after, scenario, subject, 0, i);
    assert forall|sc: Seq<char>, su: SubjectRef|
        !(sc == scenario && su == subject) implies #[trigger] persona_in(after, sc, su, 0) == persona_in(
            before,
            sc,
            su,
            0,
        ) by {
        lemma_same_lookup(before, after, i, sc, su, 0);
    }
}

proof fn lemma_found_at<P>(t: Seq<(String, SubjectRef, P)>, scenario: Seq<char>, subject: SubjectRef, k: int, i: int)
    requires
        0 <= k <= i < t.len(),
        key_matches(t[i], scenario, subject),
        forall|j: int| k <= j < i ==> !key_matches(#[trigger] t[j], scenario, subject),
    ensures
        persona_in(t, scenario, subject, k) == Some(t[i].2),
    decreases i - k,
{
    if k < i {
        lemma_found_at(t, scenario, subject, k + 1, i);
    }
}

proof fn lemma_same_lookup<P>(
    before: Seq<(String, SubjectRef, P)>,
    after: Seq<(String, SubjectRef, P)>,
    i: int,
    sc: Seq<char>,
    su: SubjectRef,
    k: int,
)
    requires
        0 <= i < before.len(),
        0 <= k,
        after.len() == before.len(),
        forall|j: int| 0 <= j < before.len() && j != i ==> after[j] == before[j],
        after[i].0@ == before[i].0@,
        after[i].1 == before[i].1,
        !(before[i].0@ == sc && before[i].1 == su),
    ensures
        persona_in(after, sc, su, k) == persona_in(before, sc, su, k),
    decreases before.len() - k,
{
    if k < before.len() {
        lemma_same_lookup(before, after, i, sc, su, k + 1);
    }
}

proof fn lemma_appended<P>(
    before: Seq<(String, SubjectRef, P)>,
    after: Seq<(String, SubjectRef, P)>,
    scenario: Seq<char>,
    subject: SubjectRef,
)
    requires
        after.len() == before.len() + 1,
        forall|j: int| 0 <= j < before.len() ==> after[j] == before[j],
        key_matches(after[before.len() as int], scenario, subject),
        forall|j: int| 0 <= j < before.len() ==> !key_matches(#[trigger] before[j], scenario, subject),
    ensures
        persona_in(after, scenario, subject, 0) == Some(after[before.len() as int].2),
        forall|sc: Seq<char>, su: SubjectRef|
            !(sc == scenario && su == subject) ==> #[trigger] persona_in(after, sc, su, 0) == persona_in(
                before,
                sc,
                su,
                0,
            ),
{
    lemma_found_at(after, scenario, subject, 0, before.len() as int);
    assert forall|sc: Seq<char>, su: SubjectRef|
        !(sc == scenario && su == subject) implies #[trigger] persona_in(after, sc, su, 0) == persona_in(
            before,
            sc,
            su,
            0,
        ) by {
        lemma_appended_lookup(before, after, sc, su, 0, scenario, subject);
    }
}

proof fn lemma_appended_lookup<P>(
    before: Seq<(String, SubjectRef, P)>,
    after: Seq<(String, SubjectRef, P)>,
    sc: Seq<char>,
    su: SubjectRef,
    k: int,
    scenario: Seq<char>,
    subject: SubjectRef,
)
    requires
        0 <= k,
        after.len() == before.len() + 1,
        forall|j: int| 0 <= j < before.len() ==> after[j] == before[j],
        key_matches(after[before.len() as int], scenario, subject),
        !(sc == scenario && su == subject),
    ensures
        persona_in(after, sc, su, k) == persona_in(before, sc, su, k),
    decreases after.len() - k,
{
    if k < before.len() {
        lemma_appended_lookup(before, after, sc, su, k + 1, scenario, subject);
    } else if k == before.len() {
        assert(!key_matches(after[k], sc, su));
        assert(persona_in(after, sc, su, k + 1).is_none());
    }
}

/// A persona outlives the run: once kept for an agent of a scenario, the
/// interview finds it again for that agent, and keeping it touched no other
/// agent's.
pub proof fn kept_persona_is_found_again<P>(
    table: Seq<(String, SubjectRef, P)>,
    i: int,
    scenario: Seq<char>,
    subject: SubjectRef,
)
    requires
        0 <= i < table.len(),
        key_matches(table[i], scenario, subject),
        forall|j: int| 0 <= j < i ==> !key_matches(#[trigger] table[j], scenario, subject),
    ensures
        persona_in(table, scenario, subject, 0) == Some(table[i].2),
{
    lemma_found_at(table, scenario, subject, 0, i);
}

pub open spec fn title_words(name: Option<Seq<char>>, label: Seq<char>, window: bool) -> Seq<char> {
    match name {
        Some(n) => n + " — "@ + label,
        None => if window {
            "Interview — "@ + label
        } else {
            label
        },
    }
}

/// The interview's heading: the persona's name with the agent's label, when
/// the agent has a named persona (`name`); otherwise the label, introduced
/// as an interview in the floating `window`.
pub fn interview_title(name: Option<&str>, label: &str, window: bool) -> (r: String)
    ensures
        r@ == title_words(
            match name {
                Some(n) => Some(n@),
                None => None,
            },
            label@,
            window,
        ),
{
    match name {
        Some(n) => {
            let mut s = String::from_str(n);
            s.append(" — ");
            s.append(label);
            s
        },
        None => if window {
            let mut s = String::from_str("Interview — ");
            s.append(label);
            s
        } else {
            String::from_str(label)
        },
    }
}

} // verus!
