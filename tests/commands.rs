use wallpaper_engine::backend::{split_command, split_words, LinuxWallpaperCommand};
use wallpaper_engine::detect::{backend_for_session, detect, needs_tool_probe, DetectionError};
use wallpaper_engine::dispatch::{change_wallpaper, change_wallpaper_url, spawn_failure_message, DownloadFailure};
use wallpaper_engine::escape::escape_path;

#[test]
fn escape_leaves_plain_path_alone() {
    assert_eq!(escape_path("/home/user/pic.png"), "/home/user/pic.png");
}

#[test]
fn escape_prefixes_every_special_character() {
    let specials = " $`\\\"'&|*?;<>()[]{}^#~";
    for c in specials.chars() {
        let input = format!("a{}b", c);
        assert_eq!(escape_path(&input), format!("a\\{}b", c));
    }
}

#[test]
fn escape_path_with_spaces_and_quotes() {
    assert_eq!(escape_path("/tmp/my pic's (1).png"), "/tmp/my\\ pic\\'s\\ \\(1\\).png");
}

#[test]
fn escape_empty_path() {
    assert_eq!(escape_path(""), "");
}

#[test]
fn escaped_token_has_no_unescaped_special() {
    let out = escape_path("a b$c");
    assert_eq!(out, "a\\ b\\$c");
    // read back as one shell word
    let mut word = String::new();
    let mut chars = out.chars();
    while let Some(c) = chars.next() {
        if c == '\\' {
            word.push(chars.next().unwrap());
        } else {
            assert!(c != ' ' && c != '$');
            word.push(c);
        }
    }
    assert_eq!(word, "a b$c");
}

#[test]
fn gsettings_command_uses_raw_path() {
    let c = LinuxWallpaperCommand::GSettings.command("/a b.png".to_string());
    assert_eq!(c, "gsettings set org.gnome.desktop.background picture-uri \"file:///a b.png\"");
}

#[test]
fn xfconf_command_uses_raw_path() {
    let c = LinuxWallpaperCommand::XfConf.command("/a b.png".to_string());
    assert_eq!(c, "xfconf-query -c xfce4-desktop -p /backdrop/screen0/monitor0/image-path -s /a b.png");
}

#[test]
fn plasma_command_embeds_path_in_script() {
    let c = LinuxWallpaperCommand::DbusPlasma.command("/p.png".to_string());
    assert_eq!(
        c,
        "qdbus org.kde.plasmashell /PlasmaShell org.kde.PlasmaShell.evaluateScript 'string:var Desktops = desktops(); for (i=0;i<Desktops.length;i++) { d = Desktops[i]; d.wallpaperPlugin = \"org.kde.image\"; d.currentConfigGroup = Array(\"Wallpaper\", \"org.kde.image\", \"General\"); d.writeConfig(\"Image\", \"file:///p.png\") }'"
    );
}

#[test]
fn plasma_command_escapes_path() {
    let c = LinuxWallpaperCommand::DbusPlasma.command("/a$b.png".to_string());
    assert!(c.ends_with("d.writeConfig(\"Image\", \"file:///a\\$b.png\") }'"));
}

#[test]
fn tool_commands() {
    assert_eq!(LinuxWallpaperCommand::SwayBG.command("/x&y.png".to_string()), "swaybg -i /x&y.png");
    assert_eq!(LinuxWallpaperCommand::Feh.command("/a$b".to_string()), "feh --bg-fill /a$b");
    assert_eq!(LinuxWallpaperCommand::Nitrogen.command("/x.png".to_string()), "nitrogen --set-zoom-fill /x.png");
    assert_eq!(LinuxWallpaperCommand::Feh.command("/x.png".to_string()), "feh --bg-fill /x.png");
}

#[test]
fn escaping_policy_per_backend() {
    assert!(!LinuxWallpaperCommand::GSettings.uses_escaped_path());
    assert!(LinuxWallpaperCommand::DbusPlasma.uses_escaped_path());
    assert!(!LinuxWallpaperCommand::XfConf.uses_escaped_path());
    assert!(!LinuxWallpaperCommand::SwayBG.uses_escaped_path());
    assert!(!LinuxWallpaperCommand::Nitrogen.uses_escaped_path());
    assert!(!LinuxWallpaperCommand::Feh.uses_escaped_path());
}

#[test]
fn split_words_on_any_white_space() {
    let w = split_words("  feh\t--bg-fill \n /x.png  ");
    assert_eq!(w, vec!["feh".to_string(), "--bg-fill".to_string(), "/x.png".to_string()]);
    let w = split_words("a\u{3000}b");
    assert_eq!(w, vec!["a".to_string(), "b".to_string()]);
}

#[test]
fn split_command_program_and_args() {
    let inv = split_command(" swaybg -i /x.png").ok().unwrap();
    assert_eq!(inv.program, "swaybg");
    assert_eq!(inv.args, vec!["-i".to_string(), "/x.png".to_string()]);
}

#[test]
fn split_command_refuses_blank_line() {
    assert_eq!(split_command("   ").err().unwrap(), "Command was empty");
    assert_eq!(split_command("").err().unwrap(), "Command was empty");
}

#[test]
fn session_table() {
    assert_eq!(backend_for_session("GNOME"), Some(LinuxWallpaperCommand::GSettings));
    assert_eq!(backend_for_session("ubuntu:GNOME"), Some(LinuxWallpaperCommand::GSettings));
    assert_eq!(backend_for_session("XFCE"), Some(LinuxWallpaperCommand::XfConf));
    assert_eq!(backend_for_session("KDE"), Some(LinuxWallpaperCommand::DbusPlasma));
    assert_eq!(backend_for_session("sway"), Some(LinuxWallpaperCommand::SwayBG));
    assert_eq!(backend_for_session("Hyprland"), Some(LinuxWallpaperCommand::SwayBG));
    assert_eq!(backend_for_session("gnome"), None);
    assert_eq!(backend_for_session("LXDE"), None);
}

#[test]
fn supported_sessions_ignore_tools() {
    for (n, f) in [(false, false), (true, false), (false, true), (true, true)] {
        assert_eq!(detect(Some("KDE"), n, f), Ok(LinuxWallpaperCommand::DbusPlasma));
        assert_eq!(detect(Some("sway"), n, f), Ok(LinuxWallpaperCommand::SwayBG));
        assert_eq!(detect(Some("GNOME"), n, f), Ok(LinuxWallpaperCommand::GSettings));
    }
}

#[test]
fn unknown_session_uses_probed_tool() {
    assert_eq!(detect(Some("LXDE"), true, false), Ok(LinuxWallpaperCommand::Nitrogen));
    assert_eq!(detect(Some("LXDE"), false, true), Ok(LinuxWallpaperCommand::Feh));
    assert_eq!(detect(Some("LXDE"), true, true), Ok(LinuxWallpaperCommand::Nitrogen));
    assert_eq!(detect(None, false, true), Ok(LinuxWallpaperCommand::Feh));
    assert_eq!(detect(Some("LXDE"), false, false), Err(DetectionError::NoSupportedCommand));
    assert_eq!(detect(None, false, false), Err(DetectionError::NoSupportedCommand));
}

#[test]
fn probe_needed_only_for_unknown_sessions() {
    assert!(!needs_tool_probe(Some("XFCE")));
    assert!(needs_tool_probe(Some("weird")));
    assert!(needs_tool_probe(None));
}

#[test]
fn change_wallpaper_plans_swaybg() {
    let inv = change_wallpaper("/img/a$b.png", Some("sway"), false, false).ok().unwrap();
    assert_eq!(inv.program, "swaybg");
    assert_eq!(inv.args, vec!["-i".to_string(), "/img/a$b.png".to_string()]);
}

#[test]
fn change_wallpaper_plans_gsettings() {
    let inv = change_wallpaper("/img/a.png", Some("GNOME"), false, false).ok().unwrap();
    assert_eq!(inv.program, "gsettings");
    assert_eq!(
        inv.args,
        vec![
            "set".to_string(),
            "org.gnome.desktop.background".to_string(),
            "picture-uri".to_string(),
            "\"file:///img/a.png\"".to_string()
        ]
    );
}

#[test]
fn change_wallpaper_without_backend_fails() {
    let e = change_wallpaper("/img/a.png", Some("unknown"), false, false).err().unwrap();
    assert_eq!(e, "No supported command found!");
}

#[test]
fn spawn_failure_text() {
    assert_eq!(
        spawn_failure_message("not found"),
        "Failed to change wallpaper: Failed to execute command: not found"
    );
}

#[test]
fn download_failure_texts() {
    assert_eq!(DownloadFailure::Request("x".to_string()).message(), "Failed to download image: x");
    assert_eq!(DownloadFailure::Body("x".to_string()).message(), "Failed to read image bytes: x");
    assert_eq!(DownloadFailure::Create("x".to_string()).message(), "Failed to create file: x");
    assert_eq!(DownloadFailure::Write("x".to_string()).message(), "Failed to write to file: x");
    assert_eq!(DownloadFailure::Flush("x".to_string()).message(), "Failed to flush file: x");
}

#[test]
fn change_wallpaper_url_reports_download_failure() {
    let e = change_wallpaper_url("/tmp/w.1.jpg", Err(DownloadFailure::Write("disk full".to_string())), Some("KDE"), false, false)
        .err()
        .unwrap();
    assert_eq!(e, "Failed to write to file: disk full");
}

#[test]
fn change_wallpaper_url_shows_saved_file() {
    let inv = change_wallpaper_url("/tmp/wallpaper.7.png", Ok(()), Some("XFCE"), false, false).ok().unwrap();
    assert_eq!(inv.program, "xfconf-query");
    assert_eq!(inv.args.last().unwrap(), "/tmp/wallpaper.7.png");
}
