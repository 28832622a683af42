//! The Linux wallpaper backends: how each one phrases its command line, and
//! how a command line is split into a program and its arguments.

use vstd::prelude::*;
use vstd::string::*;
use crate::escape::{escape_path, escaped};

verus! {

/// A desktop mechanism that can change the background image.
#[derive(Clone, Copy, Debug, PartialEq, Eq, Structural)]
pub enum LinuxWallpaperCommand {
    GSettings,
    XfConf,
    DbusPlasma,
    SwayBG,
    Nitrogen,
    Feh,
}

/// A program to start, with its arguments.
pub struct Invocation {
    pub program: String,
    pub args: Vec<String>,
}

impl Invocation {
    pub open spec fn arg_views(&self) -> Seq<Seq<char>> {
        self.args@.map_values(|a: String| a@)
    }
}

pub open spec fn plasma_prefix() -> Seq<char> {
    "qdbus org.kde.plasmashell /PlasmaShell org.kde.PlasmaShell.evaluateScript 'string:var Desktops = desktops(); for (i=0;i<Desktops.length;i++) { d = Desktops[i]; d.wallpaperPlugin = \"org.kde.image\"; d.currentConfigGroup = Array(\"Wallpaper\", \"org.kde.image\", \"General\"); d.writeConfig(\"Image\", \"file://"@
}

impl LinuxWallpaperCommand {
    /// The text before the path in this backend's command line.
    pub open spec fn prefix_spec(self) -> Seq<char> {
        match self {
            LinuxWallpaperCommand::GSettings => "gsettings set org.gnome.desktop.background picture-uri \"file://"@,
            LinuxWallpaperCommand::XfConf => "xfconf-query -c xfce4-desktop -p /backdrop/screen0/monitor0/image-path -s "@,
            LinuxWallpaperCommand::DbusPlasma => plasma_prefix(),
            LinuxWallpaperCommand::SwayBG => "swaybg -i "@,
            LinuxWallpaperCommand::Nitrogen => "nitrogen --set-zoom-fill "@,
            LinuxWallpaperCommand::Feh => "feh --bg-fill "@,
        }
    }

    /// The text after the path in this backend's command line.
    pub open spec fn suffix_spec(self) -> Seq<char> {
        match self {
            LinuxWallpaperCommand::GSettings => "\""@,
            LinuxWallpaperCommand::DbusPlasma => "\") }'"@,
            _ => ""@,
        }
    }

    /// Whether the path is written escaped (true) or as it is (false). Only
    /// the Plasma script passes through a second shell-like parser; the
    /// other commands are split into separate arguments and started
    /// directly, where escaping would change the path.
    pub open spec fn escapes_path(self) -> bool {
        match self {
            LinuxWallpaperCommand::DbusPlasma => true,
            _ => false,
        }
    }

    /// The full command line that sets `path` as the wallpaper.
    pub open spec fn command_spec(self, path: Seq<char>) -> Seq<char> {
        self.prefix_spec() + (if self.escapes_path() {
            escaped(path)
        } else {
            path
        }) + self.suffix_spec()
    }

    pub fn uses_escaped_path(&self) -> (r: bool)
        ensures
            r == self.escapes_path(),
    {
        match self {
            LinuxWallpaperCommand::DbusPlasma => true,
            _ => false,
        }
    }

    fn prefix(&self) -> (r: &'static str)
        ensures
            r@ == self.prefix_spec(),
    {
        match self {
            LinuxWallpaperCommand::GSettings => "gsettings set org.gnome.desktop.background picture-uri \"file://",
            LinuxWallpaperCommand::XfConf => "xfconf-query -c xfce4-desktop -p /backdrop/screen0/monitor0/image-path -s ",
            LinuxWallpaperCommand::DbusPlasma => "qdbus org.kde.plasmashell /PlasmaShell org.kde.PlasmaShell.evaluateScript 'string:var Desktops = desktops(); for (i=0;i<Desktops.length;i++) { d = Desktops[i]; d.wallpaperPlugin = \"org.kde.image\"; d.currentConfigGroup = Array(\"Wallpaper\", \"org.kde.image\", \"General\"); d.writeConfig(\"Image\", \"file://",
            LinuxWallpaperCommand::SwayBG => "swaybg -i ",
            LinuxWallpaperCommand::Nitrogen => "nitrogen --set-zoom-fill ",
            LinuxWallpaperCommand::Feh => "feh --bg-fill ",
        }
    }

    fn suffix(&self) -> (r: &'static str)
        ensures
            r@ == self.suffix_spec(),
    {
        match self {
            LinuxWallpaperCommand::GSettings => "\"",
            LinuxWallpaperCommand::DbusPlasma => "\") }'",
            _ => "",
        }
    }

    /// The command line that sets `image_path` as the wallpaper with this
    /// backend.
    pub fn command(&self, image_path: String) -> (r: String)
        ensures
            r@ == self.command_spec(image_path@),
    {
        let mut out = String::from_str(self.prefix());
        if self.uses_escaped_path() {
            let formatted_path = escape_path(image_path.as_str());
            out.append(formatted_path.as_str());
        } else {
            out.append(image_path.as_str());
        }
        out.append(self.suffix());
        out
    }
}

/// Unicode white space, the characters on which a command line is split.
pub open spec fn is_white_space(c: char) -> bool {
    let u = c as u32;
    (0x09 <= u && u <= 0x0D) || u == 0x20 || u == 0x85 || u == 0xA0 || u == 0x1680 || (0x2000
        <= u && u <= 0x200A) || u == 0x2028 || u == 0x2029 || u == 0x202F || u == 0x205F || u
        == 0x3000
}

pub fn is_white_space_char(c: char) -> (r: bool)
    ensures
        r == is_white_space(c),
{
    let u = c as u32;
    (0x09 <= u && u <= 0x0D) || u == 0x20 || u == 0x85 || u == 0xA0 || u == 0x1680 || (0x2000
        <= u && u <= 0x200A) || u == 0x2028 || u == 0x2029 || u == 0x202F || u == 0x205F || u
        == 0x3000
}

/// The words found so far and the word being read, after reading `s` from
/// the front.
pub open spec fn split_state(s: Seq<char>) -> (Seq<Seq<char>>, Seq<char>)
    decreases s.len(),
{
    if s.len() == 0 {
        (Seq::empty(), Seq::empty())
    } else {
        let (done, cur) = split_state(s.drop_last());
        let c = s.last();
        if is_white_space(c) {
            if cur.len() > 0 {
                (done.push(cur), Seq::empty())
            } else {
                (done, Seq::empty())
            }
        } else {
            (done, cur.push(c))
        }
    }
}

/// The maximal runs of non-white-space characters of `s`, in order.
pub open spec fn words(s: Seq<char>) -> Seq<Seq<char>> {
    let (done, cur) = split_state(s);
    if cur.len() > 0 {
        done.push(cur)
    } else {
        done
    }
}

/// Splits `s` on white space into its words.
pub fn split_words(s: &str) -> (r: Vec<String>)
    ensures
        r@.map_values(|w: String| w@) == words(s@),
{
    let mut done: Vec<String> = Vec::new();
    let mut cur = String::new();
    let n = s.unicode_len();
    let mut i: usize = 0;
    while i < n
        invariant
            i <= n,
            n == s@.len(),
            (done@.map_values(|w: String| w@), cur@) == split_state(s@.take(i as int)),
        decreases n - i,
    {
        let c = s.get_char(i);
        proof {
            assert(s@.take(i + 1).drop_last() =~= s@.take(i as int));
            assert(s@.take(i + 1).last() == c);
        }
        let ghost old_done = done@;
        if is_white_space_char(c) {
            if cur.unicode_len() > 0 {
                let w = cur;
                done.push(w);
                cur = String::new();
                proof {
                    assert(done@.map_values(|w: String| w@) =~= old_done.map_values(
                        |w: String| w@,
                    ).push(w@));
                }
            } else {
                cur = String::new();
            }
        } else {
            cur.append(s.substring_char(i, i + 1));
            proof {
                assert(s@.subrange(i as int, i + 1) =~= seq![c]);
            }
        }
        i = i + 1;
    }
    proof {
        assert(s@.take(n as int) =~= s@);
    }
    if cur.unicode_len() > 0 {
        let ghost old_done = done@;
        done.push(cur);
        proof {
            assert(done@.map_values(|w: String| w@) =~= old_done.map_values(|w: String| w@).push(
                cur@,
            ));
        }
    }
    done
}

/// Splits a command line into the program (its first word) and the
/// arguments (the other words); an empty or blank line is refused.
pub fn split_command(command: &str) -> (r: Result<Invocation, String>)
    ensures
        r is Ok <==> words(command@).len() > 0,
        r matches Ok(inv) ==> inv.program@ == words(command@)[0] && inv.arg_views()
            == words(command@).drop_first(),
        r matches Err(e) ==> e@ == "Command was empty"@,
{
    let mut parts = split_words(command);
    proof {
        assert(parts@.map_values(|w: String| w@).len() == parts@.len());
    }
    if parts.len() == 0 {
        return Err(String::from_str("Command was empty"));
    }
    let ghost before = parts@;
    let program = parts.remove(0);
    proof {
        assert(parts@.map_values(|w: String| w@) =~= before.map_values(|w: String| w@).drop_first());
    }
    Ok(Invocation { program, args: parts })
}

} // verus!
