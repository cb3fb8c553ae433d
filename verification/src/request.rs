//! Reading the control API's request bodies: which fields a JSON body
//! carries, and what each request asks for or why it is refused.
use vstd::prelude::*;
use crate::api::{requested_task, settle_frames, unit_task_request, SHOT_SETTLE_FRAMES};
use crate::fire_layer::{layer_named, FireLayer};
use crate::model::TaskKind;
use crate::recall::text_view;

verus! {

/// What a JSON body holds at one key, as far as the requests read it.
pub enum Scalar {
    /// The body is not a JSON object, or has nothing at the key.
    Missing,
    Text(String),
    Flag(bool),
    /// A number, with its value when it is an unsigned integer.
    Number(Option<u64>),
    /// Null, an array or an object.
    Other,
}

pub enum ScalarView {
    Missing,
    Text(Seq<char>),
    Flag(bool),
    Number(Option<u64>),
    Other,
}

impl View for Scalar {
    type V = ScalarView;

    open spec fn view(&self) -> ScalarView {
        match self {
            Scalar::Missing => ScalarView::Missing,
            Scalar::Text(s) => ScalarView::Text(s@),
            Scalar::Flag(b) => ScalarView::Flag(*b),
            Scalar::Number(n) => ScalarView::Number(*n),
            Scalar::Other => ScalarView::Other,
        }
    }
}

/// What `serde_json` reads at `key` of the JSON text `body`. It depends on
/// the two texts alone; JSON's grammar is not restated here.
pub uninterp spec fn json_scalar(body: Seq<char>, key: Seq<char>) -> ScalarView;

/// `serde_json::from_str::<Value>` on `body`, then `Value::get(key)`, with
/// the value found told apart by its variant (and a number's
/// `Number::as_u64`). Its result is named [`json_scalar`]; a body that does
/// not parse reads as `Missing`, as `Value::get` finds nothing in a
/// non-object.
#[verifier::external_body]
fn json_field(body: &str, key: &str) -> (r: Scalar)
    ensures
        r@ == json_scalar(body@, key@),
{
    let v: serde_json::Value = match serde_json::from_str(body) {
        Ok(v) => v,
        Err(_) => return Scalar::Missing,
    };
    match v.get(key) {
        None => Scalar::Missing,
        Some(serde_json::Value::String(s)) => Scalar::Text(s.clone()),
        Some(serde_json::Value::Bool(b)) => Scalar::Flag(*b),
        Some(serde_json::Value::Number(n)) => Scalar::Number(n.as_u64()),
        Some(_) => Scalar::Other,
    }
}

/// The string the JSON text `body` holds at `key`, when it holds one.
pub open spec fn json_text_field(body: Seq<char>, key: Seq<char>) -> Option<Seq<char>> {
    match json_scalar(body, key) {
        ScalarView::Text(s) => Some(s),
        _ => None,
    }
}

/// The boolean the JSON text `body` holds at `key`.
pub open spec fn json_flag_field(body: Seq<char>, key: Seq<char>) -> Option<bool> {
    match json_scalar(body, key) {
        ScalarView::Flag(b) => Some(b),
        _ => None,
    }
}

/// The unsigned integer the JSON text `body` holds at `key`.
pub open spec fn json_count_field(body: Seq<char>, key: Seq<char>) -> Option<u64> {
    match json_scalar(body, key) {
        ScalarView::Number(n) => n,
        _ => None,
    }
}

/// Whether the JSON text `body` holds a number at `key`.
pub open spec fn json_number_field(body: Seq<char>, key: Seq<char>) -> bool {
    json_scalar(body, key) is Number
}

fn text_field(body: &str, key: &str) -> (r: Option<String>)
    ensures
        text_view(r) == json_text_field(body@, key@),
{
    match json_field(body, key) {
        Scalar::Text(s) => Some(s),
        _ => None,
    }
}

fn flag_field(body: &str, key: &str) -> (r: Option<bool>)
    ensures
        r == json_flag_field(body@, key@),
{
    match json_field(body, key) {
        Scalar::Flag(b) => Some(b),
        _ => None,
    }
}

fn count_field(body: &str, key: &str) -> (r: Option<u64>)
    ensures
        r == json_count_field(body@, key@),
{
    match json_field(body, key) {
        Scalar::Number(n) => n,
        _ => None,
    }
}

fn number_field(body: &str, key: &str) -> (r: bool)
    ensures
        r == json_number_field(body@, key@),
{
    match json_field(body, key) {
        Scalar::Number(_) => true,
        _ => false,
    }
}

/// `POST /control/play`: the body's `playing`, or the reason it is refused
/// (status 400).
pub fn play_request(body: &str) -> (r: Result<bool, &'static str>)
    ensures
        match json_flag_field(body@, "playing"@) {
            Some(b) => r == Ok::<bool, &'static str>(b),
            None => r matches Err(e) && e@ == "expected {\"playing\": bool}"@,
        },
{
    match flag_field(body, "playing") {
        Some(b) => Ok(b),
        None => Err("expected {\"playing\": bool}"),
    }
}

/// `POST /control/load_scenario`: the scenario id the body names, or the
/// reason it is refused (status 400).
pub fn load_request(body: &str) -> (r: Result<String, &'static str>)
    ensures
        match json_text_field(body@, "id"@) {
            Some(id) => r matches Ok(s) && s@ == id,
            None => r matches Err(e) && e@ == "expected {\"id\": scenario id -- see GET /scenarios}"@,
        },
{
    match text_field(body, "id") {
        Some(id) => Ok(id),
        None => Err("expected {\"id\": scenario id -- see GET /scenarios}"),
    }
}

/// `POST /control/unit_task`: the unit and the kind of task the body asks
/// for (see [`requested_task`]), its coordinates read by the caller.
pub fn unit_task_body(body: &str) -> (r: Result<(usize, TaskKind), &'static str>)
    ensures
        ({
            let asked = requested_task(
                json_count_field(body@, "id"@),
                json_text_field(body@, "task"@),
                json_number_field(body@, "x"@) && json_number_field(body@, "y"@),
                json_number_field(body@, "from_x"@) && json_number_field(body@, "from_y"@)
                    && json_number_field(body@, "to_x"@) && json_number_field(body@, "to_y"@),
            );
            match r {
                Ok(v) => asked == Ok::<(usize, TaskKind), Seq<char>>(v),
                Err(e) => asked == Err::<(usize, TaskKind), Seq<char>>(e@),
            }
        }),
{
    let id = count_field(body, "id");
    let task = text_field(body, "task");
    let has_point = number_field(body, "x") && number_field(body, "y");
    let has_ends = number_field(body, "from_x") && number_field(body, "from_y") && number_field(
        body,
        "to_x",
    ) && number_field(body, "to_y");
    let t: Option<&str> = match &task {
        Some(s) => Some(s.as_str()),
        None => None,
    };
    unit_task_request(id, t, has_point, has_ends)
}

/// What `POST /control/set_profile` asks to change: the profile, whether a
/// share is given (the caller reads the number), and the enabled flag.
pub struct ProfileEdit {
    pub id: String,
    pub share_given: bool,
    pub enabled: Option<bool>,
}

/// `POST /control/set_profile`: the profile and what to change in it, or the
/// reason it is refused (status 400): no profile named, or nothing to change.
pub fn profile_request(body: &str) -> (r: Result<ProfileEdit, (u16, &'static str)>)
    ensures
        profile_edit_matches(
            r,
            json_text_field(body@, "id"@),
            json_number_field(body@, "share"@),
            json_flag_field(body@, "enabled"@),
        ),
{
    profile_edit(text_field(body, "id"), number_field(body, "share"), flag_field(body, "enabled"))
}

/// `r` is what a set-profile request with the profile `id`, a share given or
/// not, and the `enabled` flag comes to: no id is refused (400), and so is
/// nothing to change (400); otherwise the edit.
pub open spec fn profile_edit_matches(
    r: Result<ProfileEdit, (u16, &'static str)>,
    id: Option<Seq<char>>,
    share_given: bool,
    enabled: Option<bool>,
) -> bool {
    match id {
        None => r matches Err((code, e)) && code == 400 && e@
            == "expected \"id\": profile id (see /behaviour/profiles)"@,
        Some(id) => if !share_given && enabled.is_none() {
            r matches Err((code, e)) && code == 400 && e@
                == "expected \"share\" (number) and/or \"enabled\" (bool)"@
        } else {
            r matches Ok(p) && p.id@ == id && p.share_given == share_given && p.enabled == enabled
        },
    }
}

/// What a set-profile request asks for, once its fields are read; see
/// [`profile_edit_matches`].
pub fn profile_edit(id: Option<String>, share_given: bool, enabled: Option<bool>) -> (r: Result<
    ProfileEdit,
    (u16, &'static str),
>)
    ensures
        profile_edit_matches(
            r,
            match id {
                Some(i) => Some(i@),
                None => None,
            },
            share_given,
            enabled,
        ),
{
    let id = match id {
        None => {
            return Err((400, "expected \"id\": profile id (see /behaviour/profiles)"));
        },
        Some(id) => id,
    };
    if !share_given && enabled.is_none() {
        return Err((400, "expected \"share\" (number) and/or \"enabled\" (bool)"));
    }
    Ok(ProfileEdit { id, share_given, enabled })
}

/// A profile as the running model holds it: its id, its share of the agents
/// (`S`, a number the caller reads) and whether it is enabled.
pub struct Setting<S> {
    pub id: String,
    pub share: S,
    pub enabled: bool,
}

pub struct SettingView<S> {
    pub id: Seq<char>,
    pub share: S,
    pub enabled: bool,
}

impl<S> View for Setting<S> {
    type V = SettingView<S>;

    open spec fn view(&self) -> SettingView<S> {
        SettingView { id: self.id@, share: self.share, enabled: self.enabled }
    }
}

pub open spec fn setting_views<S>(v: Seq<Setting<S>>) -> Seq<SettingView<S>> {
    v.map_values(|x: Setting<S>| x@)
}

/// `id` first names the profile at `i`.
pub open spec fn first_named<S>(v: Seq<SettingView<S>>, id: Seq<char>, i: int) -> bool {
    0 <= i < v.len() && v[i].id == id && forall|j: int| 0 <= j < i ==> v[j].id != id
}

/// What the edit makes of a profile: the share and flag given, the rest kept.
pub open spec fn edited<S>(p: SettingView<S>, share: Option<S>, enabled: Option<bool>) -> SettingView<S> {
    SettingView {
        id: p.id,
        share: match share {
            Some(x) => x,
            None => p.share,
        },
        enabled: match enabled {
            Some(b) => b,
            None => p.enabled,
        },
    }
}

/// `POST /control/set_profile`, once the body is read: apply the edit to the
/// profile it names, before the restart. No profile of that id is refused
/// with status 404 and nothing changes; otherwise the profile's position and
/// its settings before the edit come back, for [`profile_settled`] to undo
/// the edit should the restart fail.
pub fn apply_profile_edit<S: Copy>(settings: &mut Vec<Setting<S>>, edit: &ProfileEdit, share: Option<S>) -> (r:
    Result<(usize, Setting<S>), (u16, String)>)
    ensures
        match r {
            Ok((i, previous)) => {
                &&& first_named(setting_views(old(settings)@), edit.id@, i as int)
                &&& previous@ == setting_views(old(settings)@)[i as int]
                &&& setting_views(final(settings)@) == setting_views(old(settings)@).update(
                    i as int,
                    edited(previous@, share, edit.enabled),
                )
            },
            Err((code, msg)) => {
                &&& forall|j: int| 0 <= j < old(settings)@.len() ==> (#[trigger] old(settings)@[j]).id@ != edit.id@
                &&& code == 404
                &&& msg@ == "no profile \""@ + edit.id@ + "\" (see /behaviour/profiles)"@
                &&& final(settings)@ == old(settings)@
            },
        },
{
    let n = settings.len();
    let mut i: usize = 0;
    while i < n
        invariant
            n == settings@.len(),
            i <= n,
            forall|j: int| 0 <= j < i ==> (#[trigger] settings@[j]).id@ != edit.id@,
        ensures
            i <= n,
            forall|j: int| 0 <= j < i ==> (#[trigger] settings@[j]).id@ != edit.id@,
            i < n ==> settings@[i as int].id@ == edit.id@,
        decreases n - i,
    {
        if crate::text::str_eq(settings[i].id.as_str(), edit.id.as_str()) {
            break;
        }
        i = i + 1;
    }
    if i == n {
        let mut msg = String::from_str("no profile \"");
        msg.append(edit.id.as_str());
        msg.append("\" (see /behaviour/profiles)");
        return Err((404, msg));
    }
    let ghost before = setting_views(settings@);
    let current = &settings[i];
    let mut next = Setting {
        id: current.id.clone(),
        share: match share {
            Some(x) => x,
            None => current.share,
        },
        enabled: match edit.enabled {
            Some(b) => b,
            None => current.enabled,
        },
    };
    settings.set_and_swap(i, &mut next);
    proof {
        assert(setting_views(settings@) =~= before.update(i as int, edited(next@, share, edit.enabled)));
    }
    Ok((i, next))
}

/// `POST /control/set_profile`, after the restart: a restart that went
/// through answers 200 with the edit kept; one that failed puts the profile
/// back as it was and answers 500 with the failure.
pub fn profile_settled<S>(settings: &mut Vec<Setting<S>>, index: usize, previous: Setting<S>, restart: Result<
    (),
    String,
>) -> (r: Result<(), (u16, String)>)
    requires
        index < old(settings)@.len(),
    ensures
        match restart {
            Ok(()) => r is Ok && final(settings)@ == old(settings)@,
            Err(e) => r matches Err((code, msg)) && code == 500 && msg@ == e@ && setting_views(final(settings)@)
                == setting_views(old(settings)@).update(index as int, previous@),
        },
{
    match restart {
        Ok(()) => Ok(()),
        Err(e) => {
            let ghost before = setting_views(settings@);
            let ghost p = previous@;
            settings.set(index, previous);
            proof {
                assert(setting_views(settings@) =~= before.update(index as int, p));
            }
            Err((500, e))
        },
    }
}

/// A refused restart leaves the profiles as they were: undoing the edit of
/// the profile at `i` with what it held before gives back every profile.
pub proof fn failed_restart_changes_no_profile<S>(
    settings: Seq<SettingView<S>>,
    i: int,
    share: Option<S>,
    enabled: Option<bool>,
)
    requires
        0 <= i < settings.len(),
    ensures
        settings.update(i, edited(settings[i], share, enabled)).update(i, settings[i]) == settings,
{
    assert(settings.update(i, edited(settings[i], share, enabled)).update(i, settings[i]) =~= settings);
}

/// `POST /control/screenshot`, before anything moves: where the shot goes,
/// or the status and reason it is refused — no path (400), one already
/// pending (409), no camera to shoot with (503).
pub fn screenshot_gate(body: &str, pending: bool, has_camera: bool) -> (r: Result<String, (u16, &'static str)>)
    ensures
        shot_gate_matches(r, json_text_field(body@, "path"@), pending, has_camera),
{
    screenshot_decision(text_field(body, "path"), pending, has_camera)
}

/// `r` is what a screenshot request naming `path` comes to: no path (400),
/// one already pending (409), no camera (503), or where the shot goes.
pub open spec fn shot_gate_matches(
    r: Result<String, (u16, &'static str)>,
    path: Option<Seq<char>>,
    pending: bool,
    has_camera: bool,
) -> bool {
    match path {
        None => r matches Err((code, e)) && code == 400 && e@ == "expected {\"path\": \"/absolute/path.png\"}"@,
        Some(path) => if pending {
            r matches Err((code, e)) && code == 409 && e@
                == "a screenshot is already pending -- wait for it to land"@
        } else if !has_camera {
            r matches Err((code, e)) && code == 503 && e@ == "no camera -- is a scenario loaded?"@
        } else {
            r matches Ok(p) && p@ == path
        },
    }
}

/// A screenshot request once its path is read; see [`shot_gate_matches`].
pub fn screenshot_decision(path: Option<String>, pending: bool, has_camera: bool) -> (r: Result<
    String,
    (u16, &'static str),
>)
    ensures
        shot_gate_matches(
            r,
            match path {
                Some(p) => Some(p@),
                None => None,
            },
            pending,
            has_camera,
        ),
{
    let path = match path {
        None => {
            return Err((400, "expected {\"path\": \"/absolute/path.png\"}"));
        },
        Some(p) => p,
    };
    if pending {
        return Err((409, "a screenshot is already pending -- wait for it to land"));
    }
    if !has_camera {
        return Err((503, "no camera -- is a scenario loaded?"));
    }
    Ok(path)
}

/// The overlay layer a screenshot asks for: none, one found by its label in
/// any ASCII case, or the name that matches no layer (refused with status
/// 400).
pub fn screenshot_layer(body: &str) -> (r: Result<Option<FireLayer>, String>)
    ensures
        match json_text_field(body@, "layer"@) {
            None => r == Ok::<Option<FireLayer>, String>(None),
            Some(name) => match layer_named(name) {
                Some(l) => r == Ok::<Option<FireLayer>, String>(Some(l)),
                None => r matches Err(n) && n@ == name,
            },
        },
{
    match text_field(body, "layer") {
        None => Ok(None),
        Some(name) => match FireLayer::named(name.as_str()) {
            Some(l) => Ok(Some(l)),
            None => Err(name),
        },
    }
}

/// The settle window a screenshot asks for, or the default.
pub fn screenshot_settle(body: &str) -> (r: u32)
    ensures
        r == match json_count_field(body@, "settle_frames"@) {
            Some(n) => n as u32,
            None => SHOT_SETTLE_FRAMES,
        },
{
    settle_frames(count_field(body, "settle_frames"))
}

/// Where `POST /control/reload_behaviour` should read from, when the body
/// says.
pub fn reload_path(body: &str) -> (r: Option<String>)
    ensures
        text_view(r) == json_text_field(body@, "path"@),
{
    text_field(body, "path")
}

} // verus!
