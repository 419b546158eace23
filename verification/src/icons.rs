//! Icon lookup for known processes and bucket categories.
//!
//! An icon is either a brand slug (rendered as an SVG by the settings UI) or a Nerd
//! Font glyph (a single character) for unknown apps.
use vstd::prelude::*;
use crate::text::{
    ascii_lowercase,
    eq_ignore_ascii_case_spec,
    is_ascii_text,
    lemma_ascii_lowercase_case_blind,
    lemma_ascii_lowercase_idempotent,
    lowercase,
    str_eq,
    to_lower,
};

verus! {

/// The icon shown for a process whose lowercased name is `key`.
pub open spec fn spec_process_icon(key: Seq<char>) -> Seq<char> {
    if key == "chrome.exe"@ {
        "googlechrome"@
    } else if key == "firefox.exe"@ {
        "firefox"@
    } else if key == "msedge.exe"@ {
        "\u{F01E9}"@
    } else if key == "brave.exe"@ {
        "brave"@
    } else if key == "opera.exe"@ {
        "opera"@
    } else if key == "vivaldi.exe"@ {
        "vivaldi"@
    } else if key == "arc.exe"@ {
        "arc"@
    } else if key == "slack.exe"@ {
        "slack"@
    } else if key == "discord.exe"@ {
        "discord"@
    } else if key == "teams.exe"@ {
        "\u{F02BB}"@
    } else if key == "telegram.exe"@ {
        "telegram"@
    } else if key == "signal.exe"@ {
        "signal"@
    } else if key == "whatsapp.exe"@ {
        "whatsapp"@
    } else if key == "spotify.exe"@ {
        "spotify"@
    } else if key == "vlc.exe"@ {
        "vlcmediaplayer"@
    } else if key == "itunes.exe"@ {
        "itunes"@
    } else if key == "foobar2000.exe"@ {
        "\u{F075A}"@
    } else if key == "code.exe"@ {
        "visualstudiocode"@
    } else if key == "idea64.exe"@ {
        "intellijidea"@
    } else if key == "studio64.exe"@ {
        "androidstudio"@
    } else if key == "devenv.exe"@ {
        "visualstudio"@
    } else if key == "steam.exe"@ {
        "steam"@
    } else if key == "epicgameslauncher.exe"@ {
        "epicgames"@
    } else if key == "galaxyclient.exe"@ {
        "gogdotcom"@
    } else if key == "explorer.exe"@ {
        "\u{F024B}"@
    } else if key == "notepad.exe"@ || key == "notepad++.exe"@ {
        "\u{F0219}"@
    } else if key == "rustdesk.exe"@ {
        "\u{F0379}"@
    } else if key == "powershell.exe"@ || key == "pwsh.exe"@ {
        "powershell"@
    } else if key == "cmd.exe"@ {
        "\u{F018D}"@
    } else if key == "windowsterminal.exe"@ {
        "windowsterminal"@
    } else if key == "mstsc.exe"@ {
        "\u{F0379}"@
    } else if key == "taskmgr.exe"@ {
        "\u{F035C}"@
    } else if key == "winword.exe"@ {
        "\u{F021B}"@
    } else if key == "excel.exe"@ {
        "\u{F021F}"@
    } else if key == "powerpnt.exe"@ {
        "\u{F0227}"@
    } else if key == "outlook.exe"@ {
        "\u{F0D22}"@
    } else if key == "codex.exe"@ {
        "openai"@
    } else if key == "antigravity.exe"@ {
        "googlegemini"@
    } else if key == "cursor.exe"@ {
        "cursor"@
    } else {
        "\u{F0485}"@
    }
}

/// The icon shown for a bucket whose lowercased name is `key` (always a glyph:
/// categories have no brand).
pub open spec fn spec_bucket_icon(key: Seq<char>) -> Seq<char> {
    if key == "browsing"@ {
        "\u{F0483}"@
    } else if key == "communication"@ {
        "\u{F0BE8}"@
    } else if key == "media"@ {
        "\u{F04C5}"@
    } else if key == "development"@ {
        "\u{F0A1E}"@
    } else if key == "gaming"@ {
        "\u{F0E52}"@
    } else {
        "\u{F0493}"@
    }
}

/// The icon for a process name, looked up without regard to case.
pub fn process_icon(process: &str) -> (r: &'static str)
    ensures
        r@ == spec_process_icon(lowercase(process@)),
        is_ascii_text(process@) ==> r@ == spec_process_icon(ascii_lowercase(process@)),
{
    let lower = to_lower(process);
    let k = lower.as_str();
    if str_eq(k, "chrome.exe") {
        return "googlechrome";
    }
    if str_eq(k, "firefox.exe") {
        return "firefox";
    }
    if str_eq(k, "msedge.exe") {
        return "\u{F01E9}";
    }
    if str_eq(k, "brave.exe") {
        return "brave";
    }
    if str_eq(k, "opera.exe") {
        return "opera";
    }
    if str_eq(k, "vivaldi.exe") {
        return "vivaldi";
    }
    if str_eq(k, "arc.exe") {
        return "arc";
    }
    if str_eq(k, "slack.exe") {
        return "slack";
    }
    if str_eq(k, "discord.exe") {
        return "discord";
    }
    if str_eq(k, "teams.exe") {
        return "\u{F02BB}";
    }
    if str_eq(k, "telegram.exe") {
        return "telegram";
    }
    if str_eq(k, "signal.exe") {
        return "signal";
    }
    if str_eq(k, "whatsapp.exe") {
        return "whatsapp";
    }
    if str_eq(k, "spotify.exe") {
        return "spotify";
    }
    if str_eq(k, "vlc.exe") {
        return "vlcmediaplayer";
    }
    if str_eq(k, "itunes.exe") {
        return "itunes";
    }
    if str_eq(k, "foobar2000.exe") {
        return "\u{F075A}";
    }
    if str_eq(k, "code.exe") {
        return "visualstudiocode";
    }
    if str_eq(k, "idea64.exe") {
        return "intellijidea";
    }
    if str_eq(k, "studio64.exe") {
        return "androidstudio";
    }
    if str_eq(k, "devenv.exe") {
        return "visualstudio";
    }
    if str_eq(k, "steam.exe") {
        return "steam";
    }
    if str_eq(k, "epicgameslauncher.exe") {
        return "epicgames";
    }
    if str_eq(k, "galaxyclient.exe") {
        return "gogdotcom";
    }
    if str_eq(k, "explorer.exe") {
        return "\u{F024B}";
    }
    if str_eq(k, "notepad.exe") || str_eq(k, "notepad++.exe") {
        return "\u{F0219}";
    }
    if str_eq(k, "rustdesk.exe") {
        return "\u{F0379}";
    }
    if str_eq(k, "powershell.exe") || str_eq(k, "pwsh.exe") {
        return "powershell";
    }
    if str_eq(k, "cmd.exe") {
        return "\u{F018D}";
    }
    if str_eq(k, "windowsterminal.exe") {
        return "windowsterminal";
    }
    if str_eq(k, "mstsc.exe") {
        return "\u{F0379}";
    }
    if str_eq(k, "taskmgr.exe") {
        return "\u{F035C}";
    }
    if str_eq(k, "winword.exe") {
        return "\u{F021B}";
    }
    if str_eq(k, "excel.exe") {
        return "\u{F021F}";
    }
    if str_eq(k, "powerpnt.exe") {
        return "\u{F0227}";
    }
    if str_eq(k, "outlook.exe") {
        return "\u{F0D22}";
    }
    if str_eq(k, "codex.exe") {
        return "openai";
    }
    if str_eq(k, "antigravity.exe") {
        return "googlegemini";
    }
    if str_eq(k, "cursor.exe") {
        return "cursor";
    }
    "\u{F0485}"
}

/// The icon for a bucket category name, looked up without regard to case.
pub fn bucket_icon(name: &str) -> (r: &'static str)
    ensures
        r@ == spec_bucket_icon(lowercase(name@)),
        is_ascii_text(name@) ==> r@ == spec_bucket_icon(ascii_lowercase(name@)),
{
    let lower = to_lower(name);
    let k = lower.as_str();
    if str_eq(k, "browsing") {
        return "\u{F0483}";
    }
    if str_eq(k, "communication") {
        return "\u{F0BE8}";
    }
    if str_eq(k, "media") {
        return "\u{F04C5}";
    }
    if str_eq(k, "development") {
        return "\u{F0A1E}";
    }
    if str_eq(k, "gaming") {
        return "\u{F0E52}";
    }
    "\u{F0493}"
}


/// The icon lookup ignores the case of ASCII letters: two ASCII names equal up to
/// ASCII case get the same icon, and so do a name and its lowercase form.
pub proof fn lemma_process_icon_ignores_ascii_case(a: Seq<char>, b: Seq<char>)
    requires
        is_ascii_text(a),
        eq_ignore_ascii_case_spec(a, b),
    ensures
        spec_process_icon(ascii_lowercase(a)) == spec_process_icon(ascii_lowercase(b)),
        is_ascii_text(ascii_lowercase(a)),
        spec_process_icon(ascii_lowercase(ascii_lowercase(a))) == spec_process_icon(ascii_lowercase(a)),
{
    lemma_ascii_lowercase_case_blind(a, b);
    lemma_ascii_lowercase_idempotent(a);
}


/// The processes with a known icon, each with the brand slug or glyph shown for it.
pub open spec fn process_icon_table() -> Seq<(Seq<char>, Seq<char>)> {
    seq![
        ("chrome.exe"@, "googlechrome"@),
        ("firefox.exe"@, "firefox"@),
        ("msedge.exe"@, "\u{F01E9}"@),
        ("brave.exe"@, "brave"@),
        ("opera.exe"@, "opera"@),
        ("vivaldi.exe"@, "vivaldi"@),
        ("arc.exe"@, "arc"@),
        ("slack.exe"@, "slack"@),
        ("discord.exe"@, "discord"@),
        ("teams.exe"@, "\u{F02BB}"@),
        ("telegram.exe"@, "telegram"@),
        ("signal.exe"@, "signal"@),
        ("whatsapp.exe"@, "whatsapp"@),
        ("spotify.exe"@, "spotify"@),
        ("vlc.exe"@, "vlcmediaplayer"@),
        ("itunes.exe"@, "itunes"@),
        ("foobar2000.exe"@, "\u{F075A}"@),
        ("code.exe"@, "visualstudiocode"@),
        ("idea64.exe"@, "intellijidea"@),
        ("studio64.exe"@, "androidstudio"@),
        ("devenv.exe"@, "visualstudio"@),
        ("steam.exe"@, "steam"@),
        ("epicgameslauncher.exe"@, "epicgames"@),
        ("galaxyclient.exe"@, "gogdotcom"@),
        ("explorer.exe"@, "\u{F024B}"@),
        ("notepad.exe"@, "\u{F0219}"@),
        ("notepad++.exe"@, "\u{F0219}"@),
        ("rustdesk.exe"@, "\u{F0379}"@),
        ("powershell.exe"@, "powershell"@),
        ("pwsh.exe"@, "powershell"@),
        ("cmd.exe"@, "\u{F018D}"@),
        ("windowsterminal.exe"@, "windowsterminal"@),
        ("mstsc.exe"@, "\u{F0379}"@),
        ("taskmgr.exe"@, "\u{F035C}"@),
        ("winword.exe"@, "\u{F021B}"@),
        ("excel.exe"@, "\u{F021F}"@),
        ("powerpnt.exe"@, "\u{F0227}"@),
        ("outlook.exe"@, "\u{F0D22}"@),
        ("codex.exe"@, "openai"@),
        ("antigravity.exe"@, "googlegemini"@),
        ("cursor.exe"@, "cursor"@),
    ]
}

/// Every process of the icon table gets its icon from the table, and any name the
/// table does not hold gets the generic application glyph.
pub proof fn lemma_process_icon_table(key: Seq<char>)
    ensures
        forall|i: int|
            0 <= i < process_icon_table().len() ==> spec_process_icon(#[trigger] process_icon_table()[i].0)
                == process_icon_table()[i].1,
        (forall|i: int| 0 <= i < process_icon_table().len() ==> #[trigger] process_icon_table()[i].0 != key)
            ==> spec_process_icon(key) == "\u{F0485}"@,
{
    let t = process_icon_table();
    reveal_strlit("chrome.exe");
    reveal_strlit("firefox.exe");
    reveal_strlit("msedge.exe");
    reveal_strlit("brave.exe");
    reveal_strlit("opera.exe");
    reveal_strlit("vivaldi.exe");
    reveal_strlit("arc.exe");
    reveal_strlit("slack.exe");
    reveal_strlit("discord.exe");
    reveal_strlit("teams.exe");
    reveal_strlit("telegram.exe");
    reveal_strlit("signal.exe");
    reveal_strlit("whatsapp.exe");
    reveal_strlit("spotify.exe");
    reveal_strlit("vlc.exe");
    reveal_strlit("itunes.exe");
    reveal_strlit("foobar2000.exe");
    reveal_strlit("code.exe");
    reveal_strlit("idea64.exe");
    reveal_strlit("studio64.exe");
    reveal_strlit("devenv.exe");
    reveal_strlit("steam.exe");
    reveal_strlit("epicgameslauncher.exe");
    reveal_strlit("galaxyclient.exe");
    reveal_strlit("explorer.exe");
    reveal_strlit("notepad.exe");
    reveal_strlit("notepad++.exe");
    reveal_strlit("rustdesk.exe");
    reveal_strlit("powershell.exe");
    reveal_strlit("pwsh.exe");
    reveal_strlit("cmd.exe");
    reveal_strlit("windowsterminal.exe");
    reveal_strlit("mstsc.exe");
    reveal_strlit("taskmgr.exe");
    reveal_strlit("winword.exe");
    reveal_strlit("excel.exe");
    reveal_strlit("powerpnt.exe");
    reveal_strlit("outlook.exe");
    reveal_strlit("codex.exe");
    reveal_strlit("antigravity.exe");
    reveal_strlit("cursor.exe");
    assert("chrome.exe"@.len() == 10);
    assert("firefox.exe"@.len() == 11);
    assert("msedge.exe"@.len() == 10);
    assert("brave.exe"@.len() == 9);
    assert("opera.exe"@.len() == 9);
    assert("vivaldi.exe"@.len() == 11);
    assert("arc.exe"@.len() == 7);
    assert("slack.exe"@.len() == 9);
    assert("discord.exe"@.len() == 11);
    assert("teams.exe"@.len() == 9);
    assert("telegram.exe"@.len() == 12);
    assert("signal.exe"@.len() == 10);
    assert("whatsapp.exe"@.len() == 12);
    assert("spotify.exe"@.len() == 11);
    assert("vlc.exe"@.len() == 7);
    assert("itunes.exe"@.len() == 10);
    assert("foobar2000.exe"@.len() == 14);
    assert("code.exe"@.len() == 8);
    assert("idea64.exe"@.len() == 10);
    assert("studio64.exe"@.len() == 12);
    assert("devenv.exe"@.len() == 10);
    assert("steam.exe"@.len() == 9);
    assert("epicgameslauncher.exe"@.len() == 21);
    assert("galaxyclient.exe"@.len() == 16);
    assert("explorer.exe"@.len() == 12);
    assert("notepad.exe"@.len() == 11);
    assert("notepad++.exe"@.len() == 13);
    assert("rustdesk.exe"@.len() == 12);
    assert("powershell.exe"@.len() == 14);
    assert("pwsh.exe"@.len() == 8);
    assert("cmd.exe"@.len() == 7);
    assert("windowsterminal.exe"@.len() == 19);
    assert("mstsc.exe"@.len() == 9);
    assert("taskmgr.exe"@.len() == 11);
    assert("winword.exe"@.len() == 11);
    assert("excel.exe"@.len() == 9);
    assert("powerpnt.exe"@.len() == 12);
    assert("outlook.exe"@.len() == 11);
    assert("codex.exe"@.len() == 9);
    assert("antigravity.exe"@.len() == 15);
    assert("cursor.exe"@.len() == 10);
    assert("chrome.exe"@[0] != "msedge.exe"@[0]);
    assert("brave.exe"@[0] != "opera.exe"@[0]);
    assert("firefox.exe"@[0] != "vivaldi.exe"@[0]);
    assert("brave.exe"@[0] != "slack.exe"@[0]);
    assert("opera.exe"@[0] != "slack.exe"@[0]);
    assert("firefox.exe"@[0] != "discord.exe"@[0]);
    assert("vivaldi.exe"@[0] != "discord.exe"@[0]);
    assert("brave.exe"@[0] != "teams.exe"@[0]);
    assert("opera.exe"@[0] != "teams.exe"@[0]);
    assert("slack.exe"@[0] != "teams.exe"@[0]);
    assert("chrome.exe"@[0] != "signal.exe"@[0]);
    assert("msedge.exe"@[0] != "signal.exe"@[0]);
    assert("telegram.exe"@[0] != "whatsapp.exe"@[0]);
    assert("firefox.exe"@[0] != "spotify.exe"@[0]);
    assert("vivaldi.exe"@[0] != "spotify.exe"@[0]);
    assert("discord.exe"@[0] != "spotify.exe"@[0]);
    assert("arc.exe"@[0] != "vlc.exe"@[0]);
    assert("chrome.exe"@[0] != "itunes.exe"@[0]);
    assert("msedge.exe"@[0] != "itunes.exe"@[0]);
    assert("signal.exe"@[0] != "itunes.exe"@[0]);
    assert("chrome.exe"@[0] != "idea64.exe"@[0]);
    assert("msedge.exe"@[0] != "idea64.exe"@[0]);
    assert("signal.exe"@[0] != "idea64.exe"@[0]);
    assert("itunes.exe"@[1] != "idea64.exe"@[1]);
    assert("telegram.exe"@[0] != "studio64.exe"@[0]);
    assert("whatsapp.exe"@[0] != "studio64.exe"@[0]);
    assert("chrome.exe"@[0] != "devenv.exe"@[0]);
    assert("msedge.exe"@[0] != "devenv.exe"@[0]);
    assert("signal.exe"@[0] != "devenv.exe"@[0]);
    assert("itunes.exe"@[0] != "devenv.exe"@[0]);
    assert("idea64.exe"@[0] != "devenv.exe"@[0]);
    assert("brave.exe"@[0] != "steam.exe"@[0]);
    assert("opera.exe"@[0] != "steam.exe"@[0]);
    assert("slack.exe"@[1] != "steam.exe"@[1]);
    assert("teams.exe"@[0] != "steam.exe"@[0]);
    assert("telegram.exe"@[0] != "explorer.exe"@[0]);
    assert("whatsapp.exe"@[0] != "explorer.exe"@[0]);
    assert("studio64.exe"@[0] != "explorer.exe"@[0]);
    assert("firefox.exe"@[0] != "notepad.exe"@[0]);
    assert("vivaldi.exe"@[0] != "notepad.exe"@[0]);
    assert("discord.exe"@[0] != "notepad.exe"@[0]);
    assert("spotify.exe"@[0] != "notepad.exe"@[0]);
    assert("telegram.exe"@[0] != "rustdesk.exe"@[0]);
    assert("whatsapp.exe"@[0] != "rustdesk.exe"@[0]);
    assert("studio64.exe"@[0] != "rustdesk.exe"@[0]);
    assert("explorer.exe"@[0] != "rustdesk.exe"@[0]);
    assert("foobar2000.exe"@[0] != "powershell.exe"@[0]);
    assert("code.exe"@[0] != "pwsh.exe"@[0]);
    assert("arc.exe"@[0] != "cmd.exe"@[0]);
    assert("vlc.exe"@[0] != "cmd.exe"@[0]);
    assert("brave.exe"@[0] != "mstsc.exe"@[0]);
    assert("opera.exe"@[0] != "mstsc.exe"@[0]);
    assert("slack.exe"@[0] != "mstsc.exe"@[0]);
    assert("teams.exe"@[0] != "mstsc.exe"@[0]);
    assert("steam.exe"@[0] != "mstsc.exe"@[0]);
    assert("firefox.exe"@[0] != "taskmgr.exe"@[0]);
    assert("vivaldi.exe"@[0] != "taskmgr.exe"@[0]);
    assert("discord.exe"@[0] != "taskmgr.exe"@[0]);
    assert("spotify.exe"@[0] != "taskmgr.exe"@[0]);
    assert("notepad.exe"@[0] != "taskmgr.exe"@[0]);
    assert("firefox.exe"@[0] != "winword.exe"@[0]);
    assert("vivaldi.exe"@[0] != "winword.exe"@[0]);
    assert("discord.exe"@[0] != "winword.exe"@[0]);
    assert("spotify.exe"@[0] != "winword.exe"@[0]);
    assert("notepad.exe"@[0] != "winword.exe"@[0]);
    assert("taskmgr.exe"@[0] != "winword.exe"@[0]);
    assert("brave.exe"@[0] != "excel.exe"@[0]);
    assert("opera.exe"@[0] != "excel.exe"@[0]);
    assert("slack.exe"@[0] != "excel.exe"@[0]);
    assert("teams.exe"@[0] != "excel.exe"@[0]);
    assert("steam.exe"@[0] != "excel.exe"@[0]);
    assert("mstsc.exe"@[0] != "excel.exe"@[0]);
    assert("telegram.exe"@[0] != "powerpnt.exe"@[0]);
    assert("whatsapp.exe"@[0] != "powerpnt.exe"@[0]);
    assert("studio64.exe"@[0] != "powerpnt.exe"@[0]);
    assert("explorer.exe"@[0] != "powerpnt.exe"@[0]);
    assert("rustdesk.exe"@[0] != "powerpnt.exe"@[0]);
    assert("firefox.exe"@[0] != "outlook.exe"@[0]);
    assert("vivaldi.exe"@[0] != "outlook.exe"@[0]);
    assert("discord.exe"@[0] != "outlook.exe"@[0]);
    assert("spotify.exe"@[0] != "outlook.exe"@[0]);
    assert("notepad.exe"@[0] != "outlook.exe"@[0]);
    assert("taskmgr.exe"@[0] != "outlook.exe"@[0]);
    assert("winword.exe"@[0] != "outlook.exe"@[0]);
    assert("brave.exe"@[0] != "codex.exe"@[0]);
    assert("opera.exe"@[0] != "codex.exe"@[0]);
    assert("slack.exe"@[0] != "codex.exe"@[0]);
    assert("teams.exe"@[0] != "codex.exe"@[0]);
    assert("steam.exe"@[0] != "codex.exe"@[0]);
    assert("mstsc.exe"@[0] != "codex.exe"@[0]);
    assert("excel.exe"@[0] != "codex.exe"@[0]);
    assert("chrome.exe"@[1] != "cursor.exe"@[1]);
    assert("msedge.exe"@[0] != "cursor.exe"@[0]);
    assert("signal.exe"@[0] != "cursor.exe"@[0]);
    assert("itunes.exe"@[0] != "cursor.exe"@[0]);
    assert("idea64.exe"@[0] != "cursor.exe"@[0]);
    assert("devenv.exe"@[0] != "cursor.exe"@[0]);
    assert(t[0] == ("chrome.exe"@, "googlechrome"@));
    assert(t[1] == ("firefox.exe"@, "firefox"@));
    assert(t[2] == ("msedge.exe"@, "\u{F01E9}"@));
    assert(t[3] == ("brave.exe"@, "brave"@));
    assert(t[4] == ("opera.exe"@, "opera"@));
    assert(t[5] == ("vivaldi.exe"@, "vivaldi"@));
    assert(t[6] == ("arc.exe"@, "arc"@));
    assert(t[7] == ("slack.exe"@, "slack"@));
    assert(t[8] == ("discord.exe"@, "discord"@));
    assert(t[9] == ("teams.exe"@, "\u{F02BB}"@));
    assert(t[10] == ("telegram.exe"@, "telegram"@));
    assert(t[11] == ("signal.exe"@, "signal"@));
    assert(t[12] == ("whatsapp.exe"@, "whatsapp"@));
    assert(t[13] == ("spotify.exe"@, "spotify"@));
    assert(t[14] == ("vlc.exe"@, "vlcmediaplayer"@));
    assert(t[15] == ("itunes.exe"@, "itunes"@));
    assert(t[16] == ("foobar2000.exe"@, "\u{F075A}"@));
    assert(t[17] == ("code.exe"@, "visualstudiocode"@));
    assert(t[18] == ("idea64.exe"@, "intellijidea"@));
    assert(t[19] == ("studio64.exe"@, "androidstudio"@));
    assert(t[20] == ("devenv.exe"@, "visualstudio"@));
    assert(t[21] == ("steam.exe"@, "steam"@));
    assert(t[22] == ("epicgameslauncher.exe"@, "epicgames"@));
    assert(t[23] == ("galaxyclient.exe"@, "gogdotcom"@));
    assert(t[24] == ("explorer.exe"@, "\u{F024B}"@));
    assert(t[25] == ("notepad.exe"@, "\u{F0219}"@));
    assert(t[26] == ("notepad++.exe"@, "\u{F0219}"@));
    assert(t[27] == ("rustdesk.exe"@, "\u{F0379}"@));
    assert(t[28] == ("powershell.exe"@, "powershell"@));
    assert(t[29] == ("pwsh.exe"@, "powershell"@));
    assert(t[30] == ("cmd.exe"@, "\u{F018D}"@));
    assert(t[31] == ("windowsterminal.exe"@, "windowsterminal"@));
    assert(t[32] == ("mstsc.exe"@, "\u{F0379}"@));
    assert(t[33] == ("taskmgr.exe"@, "\u{F035C}"@));
    assert(t[34] == ("winword.exe"@, "\u{F021B}"@));
    assert(t[35] == ("excel.exe"@, "\u{F021F}"@));
    assert(t[36] == ("powerpnt.exe"@, "\u{F0227}"@));
    assert(t[37] == ("outlook.exe"@, "\u{F0D22}"@));
    assert(t[38] == ("codex.exe"@, "openai"@));
    assert(t[39] == ("antigravity.exe"@, "googlegemini"@));
    assert(t[40] == ("cursor.exe"@, "cursor"@));
    if forall|i: int| 0 <= i < t.len() ==> #[trigger] t[i].0 != key {
        assert(t[0].0 != key);
        assert(t[1].0 != key);
        assert(t[2].0 != key);
        assert(t[3].0 != key);
        assert(t[4].0 != key);
        assert(t[5].0 != key);
        assert(t[6].0 != key);
        assert(t[7].0 != key);
        assert(t[8].0 != key);
        assert(t[9].0 != key);
        assert(t[10].0 != key);
        assert(t[11].0 != key);
        assert(t[12].0 != key);
        assert(t[13].0 != key);
        assert(t[14].0 != key);
        assert(t[15].0 != key);
        assert(t[16].0 != key);
        assert(t[17].0 != key);
        assert(t[18].0 != key);
        assert(t[19].0 != key);
        assert(t[20].0 != key);
        assert(t[21].0 != key);
        assert(t[22].0 != key);
        assert(t[23].0 != key);
        assert(t[24].0 != key);
        assert(t[25].0 != key);
        assert(t[26].0 != key);
        assert(t[27].0 != key);
        assert(t[28].0 != key);
        assert(t[29].0 != key);
        assert(t[30].0 != key);
        assert(t[31].0 != key);
        assert(t[32].0 != key);
        assert(t[33].0 != key);
        assert(t[34].0 != key);
        assert(t[35].0 != key);
        assert(t[36].0 != key);
        assert(t[37].0 != key);
        assert(t[38].0 != key);
        assert(t[39].0 != key);
        assert(t[40].0 != key);
    }
    assert forall|i: int| 0 <= i < t.len() implies spec_process_icon(#[trigger] t[i].0) == t[i].1 by {
        if i == 0 {
            assert(spec_process_icon("chrome.exe"@) == "googlechrome"@);
        } else if i == 1 {
            assert(spec_process_icon("firefox.exe"@) == "firefox"@);
        } else if i == 2 {
            assert(spec_process_icon("msedge.exe"@) == "\u{F01E9}"@);
        } else if i == 3 {
            assert(spec_process_icon("brave.exe"@) == "brave"@);
        } else if i == 4 {
            assert(spec_process_icon("opera.exe"@) == "opera"@);
        } else if i == 5 {
            assert(spec_process_icon("vivaldi.exe"@) == "vivaldi"@);
        } else if i == 6 {
            assert(spec_process_icon("arc.exe"@) == "arc"@);
        } else if i == 7 {
            assert(spec_process_icon("slack.exe"@) == "slack"@);
        } else if i == 8 {
            assert(spec_process_icon("discord.exe"@) == "discord"@);
        } else if i == 9 {
            assert(spec_process_icon("teams.exe"@) == "\u{F02BB}"@);
        } else if i == 10 {
            assert(spec_process_icon("telegram.exe"@) == "telegram"@);
        } else if i == 11 {
            assert(spec_process_icon("signal.exe"@) == "signal"@);
        } else if i == 12 {
            assert(spec_process_icon("whatsapp.exe"@) == "whatsapp"@);
        } else if i == 13 {
            assert(spec_process_icon("spotify.exe"@) == "spotify"@);
        } else if i == 14 {
            assert(spec_process_icon("vlc.exe"@) == "vlcmediaplayer"@);
        } else if i == 15 {
            assert(spec_process_icon("itunes.exe"@) == "itunes"@);
        } else if i == 16 {
            assert(spec_process_icon("foobar2000.exe"@) == "\u{F075A}"@);
        } else if i == 17 {
            assert(spec_process_icon("code.exe"@) == "visualstudiocode"@);
        } else if i == 18 {
            assert(spec_process_icon("idea64.exe"@) == "intellijidea"@);
        } else if i == 19 {
            assert(spec_process_icon("studio64.exe"@) == "androidstudio"@);
        } else if i == 20 {
            assert(spec_process_icon("devenv.exe"@) == "visualstudio"@);
        } else if i == 21 {
            assert(spec_process_icon("steam.exe"@) == "steam"@);
        } else if i == 22 {
            assert(spec_process_icon("epicgameslauncher.exe"@) == "epicgames"@);
        } else if i == 23 {
            assert(spec_process_icon("galaxyclient.exe"@) == "gogdotcom"@);
        } else if i == 24 {
            assert(spec_process_icon("explorer.exe"@) == "\u{F024B}"@);
        } else if i == 25 {
            assert(spec_process_icon("notepad.exe"@) == "\u{F0219}"@);
        } else if i == 26 {
            assert(spec_process_icon("notepad++.exe"@) == "\u{F0219}"@);
        } else if i == 27 {
            assert(spec_process_icon("rustdesk.exe"@) == "\u{F0379}"@);
        } else if i == 28 {
            assert(spec_process_icon("powershell.exe"@) == "powershell"@);
        } else if i == 29 {
            assert(spec_process_icon("pwsh.exe"@) == "powershell"@);
        } else if i == 30 {
            assert(spec_process_icon("cmd.exe"@) == "\u{F018D}"@);
        } else if i == 31 {
            assert(spec_process_icon("windowsterminal.exe"@) == "windowsterminal"@);
        } else if i == 32 {
            assert(spec_process_icon("mstsc.exe"@) == "\u{F0379}"@);
        } else if i == 33 {
            assert(spec_process_icon("taskmgr.exe"@) == "\u{F035C}"@);
        } else if i == 34 {
            assert(spec_process_icon("winword.exe"@) == "\u{F021B}"@);
        } else if i == 35 {
            assert(spec_process_icon("excel.exe"@) == "\u{F021F}"@);
        } else if i == 36 {
            assert(spec_process_icon("powerpnt.exe"@) == "\u{F0227}"@);
        } else if i == 37 {
            assert(spec_process_icon("outlook.exe"@) == "\u{F0D22}"@);
        } else if i == 38 {
            assert(spec_process_icon("codex.exe"@) == "openai"@);
        } else if i == 39 {
            assert(spec_process_icon("antigravity.exe"@) == "googlegemini"@);
        } else if i == 40 {
            assert(spec_process_icon("cursor.exe"@) == "cursor"@);
        }
    }
}


/// The group categories with their own glyph.
pub open spec fn bucket_icon_table() -> Seq<(Seq<char>, Seq<char>)> {
    seq![
        ("browsing"@, "\u{F0483}"@),
        ("communication"@, "\u{F0BE8}"@),
        ("media"@, "\u{F04C5}"@),
        ("development"@, "\u{F0A1E}"@),
        ("gaming"@, "\u{F0E52}"@),
    ]
}

/// Every category of the table gets its glyph from the table, and any other group
/// name gets the generic group glyph.
pub proof fn lemma_bucket_icon_table(key: Seq<char>)
    ensures
        forall|i: int|
            0 <= i < bucket_icon_table().len() ==> spec_bucket_icon(#[trigger] bucket_icon_table()[i].0)
                == bucket_icon_table()[i].1,
        (forall|i: int| 0 <= i < bucket_icon_table().len() ==> #[trigger] bucket_icon_table()[i].0 != key)
            ==> spec_bucket_icon(key) == "\u{F0493}"@,
{
    let t = bucket_icon_table();
    reveal_strlit("browsing");
    assert("browsing"@.len() == 8);
    reveal_strlit("communication");
    assert("communication"@.len() == 13);
    reveal_strlit("media");
    assert("media"@.len() == 5);
    reveal_strlit("development");
    assert("development"@.len() == 11);
    reveal_strlit("gaming");
    assert("gaming"@.len() == 6);
    assert(t[0] == ("browsing"@, "\u{F0483}"@));
    assert(t[1] == ("communication"@, "\u{F0BE8}"@));
    assert(t[2] == ("media"@, "\u{F04C5}"@));
    assert(t[3] == ("development"@, "\u{F0A1E}"@));
    assert(t[4] == ("gaming"@, "\u{F0E52}"@));
    if forall|i: int| 0 <= i < t.len() ==> #[trigger] t[i].0 != key {
        assert(t[0].0 != key);
        assert(t[1].0 != key);
        assert(t[2].0 != key);
        assert(t[3].0 != key);
        assert(t[4].0 != key);
    }
    assert forall|i: int| 0 <= i < t.len() implies spec_bucket_icon(#[trigger] t[i].0) == t[i].1 by {
        if i == 0 {
            assert(spec_bucket_icon("browsing"@) == "\u{F0483}"@);
        } else if i == 1 {
            assert(spec_bucket_icon("communication"@) == "\u{F0BE8}"@);
        } else if i == 2 {
            assert(spec_bucket_icon("media"@) == "\u{F04C5}"@);
        } else if i == 3 {
            assert(spec_bucket_icon("development"@) == "\u{F0A1E}"@);
        } else if i == 4 {
            assert(spec_bucket_icon("gaming"@) == "\u{F0E52}"@);
        }
    }
}

} // verus!
