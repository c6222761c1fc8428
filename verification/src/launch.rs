use crate::text::{contains, has_substring};
use vstd::prelude::*;
use vstd::string::*;

verus! {

/// The kind of system the program runs on, as far as opening a URL differs.
#[derive(Copy, Clone, PartialEq, Eq, Structural, Debug)]
pub enum Platform {
    Windows,
    MacOs,
    Linux,
    OtherUnix,
}

/// What is done with the finished URL.
#[derive(Copy, Clone, PartialEq, Eq, Structural, Debug)]
pub enum Delivery {
    /// The URL alone is printed.
    Print,
    /// A notice is printed and the URL is opened in the browser.
    Open,
}

/// A program to start, with its arguments.
#[derive(Debug, PartialEq, Eq)]
pub struct Launch {
    pub program: String,
    pub arguments: Vec<String>,
}

/// A `Launch` with its texts as character sequences.
pub struct LaunchView {
    pub program: Seq<char>,
    pub arguments: Seq<Seq<char>>,
}

impl View for Launch {
    type V = LaunchView;

    open spec fn view(&self) -> LaunchView {
        LaunchView { program: self.program@, arguments: self.arguments.deep_view() }
    }
}

/// How far an attempt to open a URL has come.
#[derive(Copy, Clone, PartialEq, Eq, Structural, Debug)]
pub enum LaunchState {
    /// The candidate of this index has been handed out and its fate is awaited.
    Trying(usize),
    /// The kernel release has been asked for.
    Probing,
    /// The Windows-side opener has been handed out and its fate is awaited.
    Interop,
    /// Nothing more will be tried.
    Finished,
}

/// What the caller reports back after carrying out an action.
#[derive(Debug, PartialEq, Eq)]
pub enum LaunchEvent {
    /// The program was started.
    Started,
    /// The program could not be started; holds the system's reason.
    NotStarted(String),
    /// The kernel release file was read; holds its content.
    KernelRelease(String),
    /// There is no kernel release file.
    NoKernelRelease,
    /// The kernel release file exists but could not be read; holds the system's reason.
    KernelReleaseUnreadable(String),
}

/// A `LaunchEvent` with its texts as character sequences.
pub enum LaunchEventView {
    Started,
    NotStarted(Seq<char>),
    KernelRelease(Seq<char>),
    NoKernelRelease,
    KernelReleaseUnreadable(Seq<char>),
}

impl View for LaunchEvent {
    type V = LaunchEventView;

    open spec fn view(&self) -> LaunchEventView {
        match self {
            LaunchEvent::Started => LaunchEventView::Started,
            LaunchEvent::NotStarted(reason) => LaunchEventView::NotStarted(reason@),
            LaunchEvent::KernelRelease(content) => LaunchEventView::KernelRelease(content@),
            LaunchEvent::NoKernelRelease => LaunchEventView::NoKernelRelease,
            LaunchEvent::KernelReleaseUnreadable(reason) => LaunchEventView::KernelReleaseUnreadable(
                reason@,
            ),
        }
    }
}

/// What the caller is to do next.
#[derive(Debug, PartialEq, Eq)]
pub enum LaunchAction {
    /// Start this program and report whether it started.
    Start(Launch),
    /// Read the kernel release file and report what it holds.
    ReadKernelRelease,
    /// The URL is being opened; nothing is left to do.
    Opened,
    /// The URL cannot be opened; holds the reason.
    GiveUp(String),
}

/// A `LaunchAction` with its texts as character sequences.
pub enum LaunchActionView {
    Start(LaunchView),
    ReadKernelRelease,
    Opened,
    GiveUp(Seq<char>),
}

impl View for LaunchAction {
    type V = LaunchActionView;

    open spec fn view(&self) -> LaunchActionView {
        match self {
            LaunchAction::Start(launch) => LaunchActionView::Start(launch@),
            LaunchAction::ReadKernelRelease => LaunchActionView::ReadKernelRelease,
            LaunchAction::Opened => LaunchActionView::Opened,
            LaunchAction::GiveUp(reason) => LaunchActionView::GiveUp(reason@),
        }
    }
}

/// The programs to try on a platform, in order.
pub open spec fn programs(platform: Platform) -> Seq<Seq<char>> {
    match platform {
        Platform::Windows => seq!["cmd"@],
        Platform::MacOs => seq!["open"@],
        Platform::Linux => seq!["xdg-open"@, "gnome-open"@, "kde-open"@, "wslview"@],
        Platform::OtherUnix => seq![
            "xdg-open"@,
            "open"@,
            "x-www-browser"@,
            "firefox"@,
            "chromium-browser"@,
            "google-chrome"@,
        ],
    }
}

/// The arguments with which a platform's programs open `url`.
pub open spec fn opener_arguments(platform: Platform, url: Seq<char>) -> Seq<Seq<char>> {
    match platform {
        Platform::Windows => seq!["/C"@, "start"@, ""@, url],
        _ => seq![url],
    }
}

/// The launches to try on a platform, in order.
pub open spec fn candidates(platform: Platform, url: Seq<char>) -> Seq<LaunchView> {
    Seq::new(
        programs(platform).len(),
        |i: int|
            LaunchView {
                program: programs(platform)[i],
                arguments: opener_arguments(platform, url),
            },
    )
}

/// The opener on the Windows side of a Linux compatibility layer.
pub open spec fn interop_opener(url: Seq<char>) -> LaunchView {
    LaunchView {
        program: "powershell.exe"@,
        arguments: seq!["-Command"@, "Start-Process '"@ + url + "'"@],
    }
}

/// The reason given when every candidate has failed.
pub open spec fn no_opener() -> Seq<char> {
    "Could not find a suitable program to open the URL"@
}

/// What `str::to_lowercase` makes of a text.
pub uninterp spec fn lowercased(text: Seq<char>) -> Seq<char>;

/// Whether a kernel release, already in lower case, names a Linux compatibility layer of
/// Windows.
pub open spec fn names_compat_layer(lowered: Seq<char>) -> bool {
    has_substring(lowered, "microsoft"@) || has_substring(lowered, "wsl"@)
}

/// What follows once all candidates of a platform have failed, the last with `reason`.
pub open spec fn after_last_candidate(platform: Platform, reason: Seq<char>) -> (
    LaunchState,
    LaunchActionView,
) {
    match platform {
        Platform::Windows => (LaunchState::Finished, LaunchActionView::GiveUp(reason)),
        Platform::MacOs => (LaunchState::Finished, LaunchActionView::GiveUp(reason)),
        Platform::Linux => (LaunchState::Probing, LaunchActionView::ReadKernelRelease),
        Platform::OtherUnix => (LaunchState::Finished, LaunchActionView::GiveUp(no_opener())),
    }
}

/// The next state and action after `event` in `state`. The first candidate that starts ends
/// the attempt. A platform with a single opener gives up with the system's reason; a list of
/// openers is gone through in order. On Linux, when the list is exhausted, the kernel release
/// decides whether the Windows-side opener is tried. An event that does not answer the last
/// action ends the attempt.
pub open spec fn launch_step(
    platform: Platform,
    url: Seq<char>,
    state: LaunchState,
    event: LaunchEventView,
) -> (LaunchState, LaunchActionView) {
    match (state, event) {
        (LaunchState::Trying(_), LaunchEventView::Started) => (
            LaunchState::Finished,
            LaunchActionView::Opened,
        ),
        (LaunchState::Trying(i), LaunchEventView::NotStarted(reason)) => if i + 1 < candidates(
            platform,
            url,
        ).len() {
            (
                LaunchState::Trying((i + 1) as usize),
                LaunchActionView::Start(candidates(platform, url)[i + 1]),
            )
        } else {
            after_last_candidate(platform, reason)
        },
        (LaunchState::Probing, LaunchEventView::KernelRelease(content)) => if names_compat_layer(
            lowercased(content),
        ) {
            (LaunchState::Interop, LaunchActionView::Start(interop_opener(url)))
        } else {
            (LaunchState::Finished, LaunchActionView::GiveUp(no_opener()))
        },
        (LaunchState::Probing, LaunchEventView::KernelReleaseUnreadable(reason)) => (
            LaunchState::Finished,
            LaunchActionView::GiveUp(reason),
        ),
        (LaunchState::Interop, LaunchEventView::Started) => (
            LaunchState::Finished,
            LaunchActionView::Opened,
        ),
        (LaunchState::Interop, LaunchEventView::NotStarted(reason)) => (
            LaunchState::Finished,
            LaunchActionView::GiveUp(reason),
        ),
        _ => (LaunchState::Finished, LaunchActionView::GiveUp(no_opener())),
    }
}

/// How many more actions an attempt in `state` can lead to, at most.
pub open spec fn actions_left(platform: Platform, url: Seq<char>, state: LaunchState) -> nat {
    match state {
        LaunchState::Trying(i) => if i + 1 < candidates(platform, url).len() {
            (candidates(platform, url).len() - i + 2) as nat
        } else {
            3
        },
        LaunchState::Probing => 2,
        LaunchState::Interop => 1,
        LaunchState::Finished => 0,
    }
}

/// Whether an action ends the attempt.
pub open spec fn is_final(action: LaunchActionView) -> bool {
    action is Opened || action is GiveUp
}

/// Every attempt ends: each step brings the end nearer, and the attempt is finished exactly
/// when the action is to stop, with the URL opened or given up on.
pub proof fn launch_comes_to_an_end(
    platform: Platform,
    url: Seq<char>,
    state: LaunchState,
    event: LaunchEventView,
)
    ensures
        state != LaunchState::Finished ==> actions_left(
            platform,
            url,
            launch_step(platform, url, state, event).0,
        ) < actions_left(platform, url, state),
        launch_step(platform, url, state, event).0 == LaunchState::Finished <==> is_final(
            launch_step(platform, url, state, event).1,
        ),
{
}

/// Calls `str::to_lowercase`. The contract names its result and claims nothing more.
#[verifier::external_body]
fn to_lowercase(text: &str) -> (r: String)
    ensures
        r@ == lowercased(text@),
{
    text.to_lowercase()
}

/// Settles what is done with the finished URL: it is only printed where either flag asks for
/// that.
pub fn choose_delivery(print_only: bool, link: bool) -> (r: Delivery)
    ensures
        r == if print_only || link {
            Delivery::Print
        } else {
            Delivery::Open
        },
{
    if print_only || link {
        Delivery::Print
    } else {
        Delivery::Open
    }
}

/// Whether a kernel release, already in lower case, names a Linux compatibility layer of
/// Windows.
pub fn mentions_compat_layer(lowered: &str) -> (r: bool)
    ensures
        r == names_compat_layer(lowered@),
{
    contains(lowered, "microsoft") || contains(lowered, "wsl")
}

/// Whether a kernel release names a Linux compatibility layer of Windows, in any case of
/// letters.
pub fn is_compat_layer_release(release: &str) -> (r: bool)
    ensures
        r == names_compat_layer(lowercased(release@)),
{
    let lowered = to_lowercase(release);
    mentions_compat_layer(lowered.as_str())
}

/// The name of the candidate program of this index, if the platform has that many.
fn program_name(platform: Platform, index: usize) -> (r: Option<&'static str>)
    ensures
        match r {
            Some(name) => index < programs(platform).len() && name@ == programs(
                platform,
            )[index as int],
            None => index >= programs(platform).len(),
        },
{
    match platform {
        Platform::Windows => if index == 0 {
            Some("cmd")
        } else {
            None
        },
        Platform::MacOs => if index == 0 {
            Some("open")
        } else {
            None
        },
        Platform::Linux => if index == 0 {
            Some("xdg-open")
        } else if index == 1 {
            Some("gnome-open")
        } else if index == 2 {
            Some("kde-open")
        } else if index == 3 {
            Some("wslview")
        } else {
            None
        },
        Platform::OtherUnix => if index == 0 {
            Some("xdg-open")
        } else if index == 1 {
            Some("open")
        } else if index == 2 {
            Some("x-www-browser")
        } else if index == 3 {
            Some("firefox")
        } else if index == 4 {
            Some("chromium-browser")
        } else if index == 5 {
            Some("google-chrome")
        } else {
            None
        },
    }
}

/// The candidate of this index on a platform, if it has that many.
pub fn candidate(platform: Platform, url: &str, index: usize) -> (r: Option<Launch>)
    ensures
        match r {
            Some(launch) => index < candidates(platform, url@).len() && launch@ == candidates(
                platform,
                url@,
            )[index as int],
            None => index >= candidates(platform, url@).len(),
        },
{
    match program_name(platform, index) {
        Some(name) => {
            let mut arguments: Vec<String> = Vec::new();
            if platform == Platform::Windows {
                arguments.push(String::from_str("/C"));
                arguments.push(String::from_str("start"));
                arguments.push(String::from_str(""));
            }
            arguments.push(String::from_str(url));
            let launch = Launch { program: String::from_str(name), arguments };
            assert(launch.arguments.deep_view() =~= opener_arguments(platform, url@));
            Some(launch)
        },
        None => None,
    }
}

/// The Windows-side opener for `url`.
fn interop_launch(url: &str) -> (r: Launch)
    ensures
        r@ == interop_opener(url@),
{
    let mut arguments: Vec<String> = Vec::new();
    arguments.push(String::from_str("-Command"));
    arguments.push(String::from_str("Start-Process '").concat(url).concat("'"));
    let launch = Launch { program: String::from_str("powershell.exe"), arguments };
    assert(launch.arguments.deep_view() =~= interop_opener(url@).arguments);
    launch
}

/// Gives up for want of an opener.
fn give_up() -> (r: (LaunchState, LaunchAction))
    ensures
        r.0 == LaunchState::Finished,
        r.1@ == LaunchActionView::GiveUp(no_opener()),
{
    (
        LaunchState::Finished,
        LaunchAction::GiveUp(String::from_str("Could not find a suitable program to open the URL")),
    )
}

/// Begins an attempt to open `url`: the first candidate of the platform is to be started.
pub fn begin_launch(platform: Platform, url: &str) -> (r: (LaunchState, LaunchAction))
    ensures
        r.0 == LaunchState::Trying(0),
        r.1@ == LaunchActionView::Start(candidates(platform, url@)[0]),
{
    match candidate(platform, url, 0) {
        Some(launch) => (LaunchState::Trying(0), LaunchAction::Start(launch)),
        None => {
            assert(candidates(platform, url@).len() > 0);
            give_up()
        },
    }
}

/// Decides what to do after `event`, which reports how the last action went.
pub fn continue_launch(platform: Platform, url: &str, state: LaunchState, event: LaunchEvent) -> (r:
    (LaunchState, LaunchAction))
    ensures
        (r.0, r.1@) == launch_step(platform, url@, state, event@),
{
    match state {
        LaunchState::Trying(i) => match event {
            LaunchEvent::Started => (LaunchState::Finished, LaunchAction::Opened),
            LaunchEvent::NotStarted(reason) => {
                if i < usize::MAX {
                    if let Some(launch) = candidate(platform, url, i + 1) {
                        return (LaunchState::Trying(i + 1), LaunchAction::Start(launch));
                    }
                }
                match platform {
                    Platform::Windows => (LaunchState::Finished, LaunchAction::GiveUp(reason)),
                    Platform::MacOs => (LaunchState::Finished, LaunchAction::GiveUp(reason)),
                    Platform::Linux => (LaunchState::Probing, LaunchAction::ReadKernelRelease),
                    Platform::OtherUnix => give_up(),
                }
            },
            _ => give_up(),
        },
        LaunchState::Probing => match event {
            LaunchEvent::KernelRelease(content) => {
                if is_compat_layer_release(content.as_str()) {
                    (LaunchState::Interop, LaunchAction::Start(interop_launch(url)))
                } else {
                    give_up()
                }
            },
            LaunchEvent::KernelReleaseUnreadable(reason) => (
                LaunchState::Finished,
                LaunchAction::GiveUp(reason),
            ),
            _ => give_up(),
        },
        LaunchState::Interop => match event {
            LaunchEvent::Started => (LaunchState::Finished, LaunchAction::Opened),
            LaunchEvent::NotStarted(reason) => (LaunchState::Finished, LaunchAction::GiveUp(reason)),
            _ => give_up(),
        },
        LaunchState::Finished => give_up(),
    }
}

} // verus!
