//! Turning a request to show an image into the program to start: backend
//! detection, the command line, and the naming of downloaded files.

use vstd::prelude::*;
use vstd::string::*;
use crate::backend::{is_white_space, split_command, split_state, words, Invocation, LinuxWallpaperCommand};
use crate::detect::{detect, detect_spec, opt_view, session_backend, str_equal, DetectionError};

verus! {

/// The message of a failed wallpaper change.
pub open spec fn change_failure(e: Seq<char>) -> Seq<char> {
    "Failed to change wallpaper: "@ + e
}

/// What `change_wallpaper` hands back for a detection outcome and a path.
pub open spec fn change_plan_ok(k: LinuxWallpaperCommand, path: Seq<char>, inv: Invocation) -> bool {
    let w = words(k.command_spec(path));
    &&& w.len() > 0
    &&& inv.program@ == w[0]
    &&& inv.arg_views() == w.drop_first()
}

proof fn lemma_words_nonempty(s: Seq<char>)
    requires
        s.len() > 0,
        !is_white_space(s[0]),
    ensures
        split_state(s).0.len() > 0 || split_state(s).1.len() > 0,
        words(s).len() > 0,
    decreases s.len(),
{
    if s.len() > 1 {
        lemma_words_nonempty(s.drop_last());
    }
}

proof fn lemma_command_has_program(k: LinuxWallpaperCommand, path: Seq<char>)
    ensures
        words(k.command_spec(path)).len() > 0,
{
    reveal_strlit("gsettings set org.gnome.desktop.background picture-uri \"file://");
    reveal_strlit("xfconf-query -c xfce4-desktop -p /backdrop/screen0/monitor0/image-path -s ");
    reveal_strlit("qdbus org.kde.plasmashell /PlasmaShell org.kde.PlasmaShell.evaluateScript 'string:var Desktops = desktops(); for (i=0;i<Desktops.length;i++) { d = Desktops[i]; d.wallpaperPlugin = \"org.kde.image\"; d.currentConfigGroup = Array(\"Wallpaper\", \"org.kde.image\", \"General\"); d.writeConfig(\"Image\", \"file://");
    reveal_strlit("swaybg -i ");
    reveal_strlit("nitrogen --set-zoom-fill ");
    reveal_strlit("feh --bg-fill ");
    let s = k.command_spec(path);
    assert(k.prefix_spec().len() > 0);
    assert(s[0] == k.prefix_spec()[0]);
    lemma_words_nonempty(s);
}

/// Decides how to show `image_path`: detects the backend from the desktop
/// session and the probed tools, and splits that backend's command line
/// into the program and its arguments.
pub fn change_wallpaper(image_path: &str, session: Option<&str>, nitrogen_found: bool, feh_found: bool) -> (r: Result<Invocation, String>)
    ensures
        match detect_spec(opt_view(session), nitrogen_found, feh_found) {
            Ok(k) => r matches Ok(inv) && change_plan_ok(k, image_path@, inv),
            Err(_) => r matches Err(e) && e@ == "No supported command found!"@,
        },
{
    match detect(session, nitrogen_found, feh_found) {
        Err(e) => Err(e.message()),
        Ok(k) => {
            let full_command = k.command(String::from_str(image_path));
            proof {
                lemma_command_has_program(k, image_path@);
            }
            match split_command(full_command.as_str()) {
                Ok(inv) => Ok(inv),
                Err(e) => {
                    let mut m = String::from_str("Failed to change wallpaper: ");
                    m.append(e.as_str());
                    Err(m)
                },
            }
        },
    }
}

/// Under a supported desktop session, showing a path (such as the base path
/// just re-saved after an edit) always succeeds in planning, whatever tools
/// are installed, and the plan starts the command of the session's backend
/// for that path.
pub proof fn lemma_reapply_uses_session_backend(
    session: Seq<char>,
    path: Seq<char>,
    nitrogen_found: bool,
    feh_found: bool,
)
    requires
        session_backend(session) is Some,
    ensures
        detect_spec(Some(session), nitrogen_found, feh_found) == Ok::<
            LinuxWallpaperCommand,
            DetectionError,
        >(session_backend(session)->0),
        words(session_backend(session)->0.command_spec(path)).len() > 0,
{
    lemma_command_has_program(session_backend(session)->0, path);
}

/// The message for a program that could not be started, given the reason.
pub fn spawn_failure_message(reason: &str) -> (r: String)
    ensures
        r@ == change_failure("Failed to execute command: "@ + reason@),
{
    let mut m = String::from_str("Failed to change wallpaper: Failed to execute command: ");
    m.append(reason);
    proof {
        reveal_strlit("Failed to change wallpaper: Failed to execute command: ");
        reveal_strlit("Failed to change wallpaper: ");
        reveal_strlit("Failed to execute command: ");
        assert(m@ =~= change_failure("Failed to execute command: "@ + reason@));
    }
    m
}

/// The position of the last `c` in `s`, or -1.
pub open spec fn last_index_of(s: Seq<char>, c: char) -> int
    decreases s.len(),
{
    if s.len() == 0 {
        -1
    } else if s.last() == c {
        s.len() - 1
    } else {
        last_index_of(s.drop_last(), c)
    }
}

proof fn lemma_last_index_range(s: Seq<char>, c: char)
    ensures
        -1 <= last_index_of(s, c) < s.len(),
    decreases s.len(),
{
    if s.len() > 0 {
        lemma_last_index_range(s.drop_last(), c);
    }
}

pub fn find_last(s: &str, c: char) -> (r: Option<usize>)
    ensures
        match r {
            Some(k) => k as int == last_index_of(s@, c),
            None => last_index_of(s@, c) == -1,
        },
{
    let mut i = s.unicode_len();
    proof {
        assert(s@.take(i as int) =~= s@);
    }
    while i > 0
        invariant
            i <= s@.len(),
            last_index_of(s@, c) == last_index_of(s@.take(i as int), c),
        decreases i,
    {
        proof {
            assert(s@.take(i as int).drop_last() =~= s@.take(i - 1));
        }
        if s.get_char(i - 1) == c {
            return Some(i - 1);
        }
        i = i - 1;
    }
    None
}

/// `s` without trailing separators and trailing `.` segments, which a
/// path's file name ignores.
pub open spec fn trim_tail(s: Seq<char>) -> Seq<char>
    decreases s.len(),
{
    if s.len() > 0 && s.last() == '/' {
        trim_tail(s.drop_last())
    } else if s.len() >= 2 && s.last() == '.' && s[s.len() - 2] == '/' {
        trim_tail(s.drop_last())
    } else {
        s
    }
}

/// The last segment of a URL or path: what follows its last `/`, once the
/// trailing separators and `.` segments are dropped.
pub open spec fn last_segment(s: Seq<char>) -> Seq<char> {
    let t = trim_tail(s);
    t.subrange(last_index_of(t, '/') + 1, t.len() as int)
}

proof fn lemma_trim_tail_is_prefix(s: Seq<char>)
    ensures
        trim_tail(s).len() <= s.len(),
        trim_tail(s) == s.take(trim_tail(s).len() as int),
    decreases s.len(),
{
    if s.len() > 0 && s.last() == '/' {
        lemma_trim_tail_is_prefix(s.drop_last());
        assert(s.drop_last().take(trim_tail(s).len() as int) =~= s.take(trim_tail(s).len() as int));
    } else if s.len() >= 2 && s.last() == '.' && s[s.len() - 2] == '/' {
        lemma_trim_tail_is_prefix(s.drop_last());
        assert(s.drop_last().take(trim_tail(s).len() as int) =~= s.take(trim_tail(s).len() as int));
    } else {
        assert(s.take(s.len() as int) =~= s);
    }
}

/// The length of `trim_tail(s)`.
pub fn trimmed_len(s: &str) -> (r: usize)
    ensures
        r as int == trim_tail(s@).len(),
        r <= s@.len(),
{
    let mut i = s.unicode_len();
    proof {
        assert(s@.take(i as int) =~= s@);
    }
    loop
        invariant
            i <= s@.len(),
            trim_tail(s@) == trim_tail(s@.take(i as int)),
        decreases i,
    {
        let t = Ghost(s@.take(i as int));
        if i > 0 && s.get_char(i - 1) == '/' {
            proof {
                assert(t@.drop_last() =~= s@.take(i - 1));
            }
            i = i - 1;
        } else if i >= 2 && s.get_char(i - 1) == '.' && s.get_char(i - 2) == '/' {
            proof {
                assert(t@.drop_last() =~= s@.take(i - 1));
            }
            i = i - 1;
        } else {
            proof {
                lemma_trim_tail_is_prefix(t@);
            }
            return i;
        }
    }
}

/// The extension of the last segment: what follows its last dot, where the
/// dot is not the segment's first character and the segment is not `..`.
pub open spec fn extension_of(url: Seq<char>) -> Option<Seq<char>> {
    let seg = last_segment(url);
    let d = last_index_of(seg, '.');
    if d <= 0 || seg == seq!['.', '.'] {
        None
    } else {
        Some(seg.subrange(d + 1, seg.len() as int))
    }
}

/// The extension given to a downloaded copy of `url`.
pub open spec fn download_extension(url: Seq<char>) -> Seq<char> {
    match extension_of(url) {
        Some(e) => e,
        None => "jpg"@,
    }
}

/// Extracts the extension of the URL's last segment, as a path's extension
/// is read: `http://x/a.b/` has the extension `b`.
pub fn url_extension(url: &str) -> (r: Option<&str>)
    ensures
        match r {
            Some(e) => extension_of(url@) == Some(e@),
            None => extension_of(url@) is None,
        },
{
    let n = trimmed_len(url);
    let trimmed = url.substring_char(0, n);
    proof {
        assert(trimmed@ =~= trim_tail(url@)) by {
            lemma_trim_tail_is_prefix(url@);
        }
        lemma_last_index_range(trimmed@, '/');
    }
    let start = match find_last(trimmed, '/') {
        Some(k) => k + 1,
        None => 0,
    };
    let seg = trimmed.substring_char(start, n);
    proof {
        lemma_last_index_range(seg@, '.');
    }
    let m = seg.unicode_len();
    match find_last(seg, '.') {
        None => None,
        Some(d) => {
            proof {
                reveal_strlit("..");
            }
            if d == 0 || str_equal(seg, "..") {
                proof {
                    assert(".."@ =~= seq!['.', '.']);
                }
                None
            } else {
                proof {
                    assert(".."@ =~= seq!['.', '.']);
                }
                Some(seg.substring_char(d + 1, m))
            }
        },
    }
}

pub open spec fn digit_char(d: nat) -> char {
    if d == 0 {
        '0'
    } else if d == 1 {
        '1'
    } else if d == 2 {
        '2'
    } else if d == 3 {
        '3'
    } else if d == 4 {
        '4'
    } else if d == 5 {
        '5'
    } else if d == 6 {
        '6'
    } else if d == 7 {
        '7'
    } else if d == 8 {
        '8'
    } else {
        '9'
    }
}

/// The decimal digits of `n`, most significant first, without leading zeros.
pub open spec fn decimal(n: nat) -> Seq<char>
    decreases n,
{
    if n < 10 {
        seq![digit_char(n)]
    } else {
        decimal(n / 10).push(digit_char(n % 10))
    }
}

fn digit_str(d: u64) -> (r: &'static str)
    requires
        d < 10,
    ensures
        r@ == seq![digit_char(d as nat)],
{
    proof {
        reveal_strlit("0");
        reveal_strlit("1");
        reveal_strlit("2");
        reveal_strlit("3");
        reveal_strlit("4");
        reveal_strlit("5");
        reveal_strlit("6");
        reveal_strlit("7");
        reveal_strlit("8");
        reveal_strlit("9");
    }
    let r = if d == 0 {
        "0"
    } else if d == 1 {
        "1"
    } else if d == 2 {
        "2"
    } else if d == 3 {
        "3"
    } else if d == 4 {
        "4"
    } else if d == 5 {
        "5"
    } else if d == 6 {
        "6"
    } else if d == 7 {
        "7"
    } else if d == 8 {
        "8"
    } else {
        "9"
    };
    assert(r@ =~= seq![digit_char(d as nat)]);
    r
}

/// Appends the decimal digits of `n` to `out`.
pub fn push_decimal(out: &mut String, n: u64)
    ensures
        final(out)@ == old(out)@ + decimal(n as nat),
    decreases n,
{
    if n >= 10 {
        push_decimal(out, n / 10);
    }
    out.append(digit_str(n % 10));
    proof {
        assert(final(out)@ =~= old(out)@ + decimal(n as nat));
    }
}

/// The temporary file that a download of `url` is written to.
pub open spec fn temp_path_spec(suffix: u64, url: Seq<char>) -> Seq<char> {
    "/tmp/wallpaper."@ + decimal(suffix as nat) + "."@ + download_extension(url)
}

/// Names the temporary copy of `url` with the given random suffix:
/// `/tmp/wallpaper.<suffix>.<extension or jpg>`.
pub fn temp_wallpaper_path(suffix: u64, url: &str) -> (r: String)
    ensures
        r@ == temp_path_spec(suffix, url@),
{
    let mut out = String::from_str("/tmp/wallpaper.");
    push_decimal(&mut out, suffix);
    out.append(".");
    match url_extension(url) {
        Some(e) => out.append(e),
        None => out.append("jpg"),
    }
    out
}

/// Relies on rand::random: a uniformly drawn `u64`, of which nothing is
/// promised.
#[verifier::external_body]
fn random_u64() -> (r: u64) {
    rand::random::<u64>()
}

/// Draws a fresh random suffix and names the temporary copy of `url`.
pub fn new_temp_wallpaper_path(url: &str) -> (r: String)
    ensures
        exists|suffix: u64| r@ == temp_path_spec(suffix, url@),
{
    let suffix = random_u64();
    temp_wallpaper_path(suffix, url)
}

/// Why a download to a temporary file failed, with the underlying reason.
pub enum DownloadFailure {
    Request(String),
    Body(String),
    Create(String),
    Write(String),
    Flush(String),
}

impl DownloadFailure {
    pub open spec fn message_spec(&self) -> Seq<char> {
        match self {
            DownloadFailure::Request(e) => "Failed to download image: "@ + e@,
            DownloadFailure::Body(e) => "Failed to read image bytes: "@ + e@,
            DownloadFailure::Create(e) => "Failed to create file: "@ + e@,
            DownloadFailure::Write(e) => "Failed to write to file: "@ + e@,
            DownloadFailure::Flush(e) => "Failed to flush file: "@ + e@,
        }
    }

    pub fn message(&self) -> (r: String)
        ensures
            r@ == self.message_spec(),
    {
        let (head, e) = match self {
            DownloadFailure::Request(e) => ("Failed to download image: ", e),
            DownloadFailure::Body(e) => ("Failed to read image bytes: ", e),
            DownloadFailure::Create(e) => ("Failed to create file: ", e),
            DownloadFailure::Write(e) => ("Failed to write to file: ", e),
            DownloadFailure::Flush(e) => ("Failed to flush file: ", e),
        };
        let mut m = String::from_str(head);
        m.append(e.as_str());
        m
    }
}

/// Decides how to show an image that was downloaded to `temp_path`: a
/// failed download is reported, a saved one is shown as a local file.
pub fn change_wallpaper_url(
    temp_path: &str,
    saved: Result<(), DownloadFailure>,
    session: Option<&str>,
    nitrogen_found: bool,
    feh_found: bool,
) -> (r: Result<Invocation, String>)
    ensures
        match saved {
            Err(f) => r matches Err(e) && e@ == f.message_spec(),
            Ok(_) => match detect_spec(opt_view(session), nitrogen_found, feh_found) {
                Ok(k) => r matches Ok(inv) && change_plan_ok(k, temp_path@, inv),
                Err(_) => r matches Err(e) && e@ == "No supported command found!"@,
            },
        },
{
    match saved {
        Err(f) => Err(f.message()),
        Ok(()) => change_wallpaper(temp_path, session, nitrogen_found, feh_found),
    }
}

} // verus!
