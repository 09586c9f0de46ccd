//! Opening a chat platform in its own browser and switching between the
//! open accounts: which address to open, the browser's command line, which
//! debugging target to attach to, and which windows to hide and show.

use vstd::prelude::*;
use crate::cloak::process::{build_data_dir_arg, build_port_arg, data_dir_arg, port_arg};
use crate::text::{decimal, names, owned, str_eq};

verus! {

/// Web address of a chat platform (WhatsApp for unknown names).
pub open spec fn platform_url(platform: Seq<char>) -> Seq<char> {
    if platform == "whatsapp"@ {
        "https://web.whatsapp.com"@
    } else if platform == "telegram"@ {
        "https://web.telegram.org"@
    } else if platform == "facebook"@ {
        "https://www.facebook.com"@
    } else if platform == "instagram"@ {
        "https://www.instagram.com"@
    } else if platform == "x"@ {
        "https://x.com"@
    } else if platform == "line"@ {
        "https://access.line.me"@
    } else {
        "https://web.whatsapp.com"@
    }
}

/// The web address of a chat platform.
pub fn get_platform_url(platform: &str) -> (r: &'static str)
    ensures
        r@ == platform_url(platform@),
{
    if str_eq(platform, "whatsapp") {
        "https://web.whatsapp.com"
    } else if str_eq(platform, "telegram") {
        "https://web.telegram.org"
    } else if str_eq(platform, "facebook") {
        "https://www.facebook.com"
    } else if str_eq(platform, "instagram") {
        "https://www.instagram.com"
    } else if str_eq(platform, "x") {
        "https://x.com"
    } else if str_eq(platform, "line") {
        "https://access.line.me"
    } else {
        "https://web.whatsapp.com"
    }
}

/// Where the browser window of an account is placed, and its size.
pub const SESSION_X: i32 = 320;
pub const SESSION_Y: i32 = 140;
pub const SESSION_WIDTH: i32 = 1280;
pub const SESSION_HEIGHT: i32 = 800;

/// Command line of the browser that shows `platform` for one account, with
/// its profile in `data_dir` and debugging on `port`.
pub fn session_launch_args(port: u16, data_dir: &str, platform: &str) -> (r: Vec<String>)
    ensures
        names(r@) == seq![
            port_arg(port),
            data_dir_arg(data_dir@),
            "--no-first-run"@,
            "--no-default-browser-check"@,
            "--disable-extensions"@,
            "--window-position=320,140"@,
            "--window-size=1280,800"@,
            "--app="@ + platform_url(platform@),
        ],
{
    let mut app = owned("--app=");
    app.append(get_platform_url(platform));
    let mut v: Vec<String> = Vec::new();
    v.push(build_port_arg(port));
    v.push(build_data_dir_arg(data_dir));
    v.push(owned("--no-first-run"));
    v.push(owned("--no-default-browser-check"));
    v.push(owned("--disable-extensions"));
    v.push(owned("--window-position=320,140"));
    v.push(owned("--window-size=1280,800"));
    v.push(app);
    assert(names(v@) =~= seq![
        port_arg(port),
        data_dir_arg(data_dir@),
        "--no-first-run"@,
        "--no-default-browser-check"@,
        "--disable-extensions"@,
        "--window-position=320,140"@,
        "--window-size=1280,800"@,
        "--app="@ + platform_url(platform@),
    ]);
    v
}

/// JSON text of the one bead shown for a freshly opened account.
pub open spec fn bead_json(account_id: Seq<char>, platform: Seq<char>) -> Seq<char> {
    "[{\"id\":\""@ + account_id + "\",\"name\":\""@ + account_id + "\",\"unread\":0,\"platform\":\""@ + platform
        + "\"}]"@
}

/// The beads of a freshly opened account: itself, with nothing unread.
pub fn build_bead_json(account_id: &str, platform: &str) -> (r: String)
    ensures
        r@ == bead_json(account_id@, platform@),
{
    let mut s = owned("[{\"id\":\"");
    s.append(account_id);
    s.append("\",\"name\":\"");
    s.append(account_id);
    s.append("\",\"unread\":0,\"platform\":\"");
    s.append(platform);
    s.append("\"}]");
    s
}

/// One debugging target the browser lists: its kind and, where given, the
/// address to attach to.
#[derive(Debug)]
pub struct PageTarget {
    pub kind: String,
    pub ws_url: Option<String>,
}

/// Position of the first target of kind "page", or -1.
pub open spec fn first_page(t: Seq<PageTarget>) -> int
    decreases t.len(),
{
    if t.len() == 0 {
        -1
    } else if first_page(t.drop_last()) >= 0 {
        first_page(t.drop_last())
    } else if t.last().kind@ == "page"@ {
        t.len() - 1
    } else {
        -1
    }
}

/// The address to attach to: that of the first page target, if that target
/// gives one.
pub fn pick_page_ws(targets: &Vec<PageTarget>) -> (r: Option<String>)
    ensures
        first_page(targets@) < 0 ==> r is None,
        first_page(targets@) >= 0 ==> r == targets@[first_page(targets@)].ws_url,
{
    let mut i: usize = 0;
    while i < targets.len()
        invariant
            i <= targets.len(),
            first_page(targets@.take(i as int)) == -1,
        decreases targets.len() - i,
    {
        assert(targets@.take(i + 1).drop_last() =~= targets@.take(i as int));
        if str_eq(targets[i].kind.as_str(), "page") {
            proof {
                lemma_first_page_prefix(targets@, i as int + 1);
            }
            return targets[i].ws_url.clone();
        }
        i += 1;
    }
    assert(targets@.take(targets.len() as int) =~= targets@);
    None
}

proof fn lemma_first_page_prefix(t: Seq<PageTarget>, k: int)
    requires
        0 < k <= t.len(),
        first_page(t.take(k)) == k - 1,
    ensures
        first_page(t) == k - 1,
    decreases t.len(),
{
    if t.len() > k {
        assert(t.drop_last().take(k) =~= t.take(k));
        lemma_first_page_prefix(t.drop_last(), k);
    } else {
        assert(t.take(k) =~= t);
    }
}

/// An open browser: the account it shows, its process and debugging port.
#[derive(Debug)]
pub struct BrowserEntry {
    pub account_id: String,
    pub pid: u32,
    pub port: u16,
}

/// What switching to an account does: hide the windows of these processes,
/// show that of `show_pid`, and answer with its debugging port.
#[derive(Debug)]
pub struct SwitchPlan {
    pub hide_pids: Vec<u32>,
    pub show_pid: u32,
    pub port: u16,
}

/// Position of the first entry of `account`, or -1.
pub open spec fn entry_of(e: Seq<BrowserEntry>, account: Seq<char>) -> int
    decreases e.len(),
{
    if e.len() == 0 {
        -1
    } else if entry_of(e.drop_last(), account) >= 0 {
        entry_of(e.drop_last(), account)
    } else if e.last().account_id@ == account {
        e.len() - 1
    } else {
        -1
    }
}

/// Processes of the entries of other accounts, in order.
pub open spec fn other_pids(e: Seq<BrowserEntry>, account: Seq<char>) -> Seq<u32>
    decreases e.len(),
{
    if e.len() == 0 {
        Seq::empty()
    } else if e.last().account_id@ != account {
        other_pids(e.drop_last(), account).push(e.last().pid)
    } else {
        other_pids(e.drop_last(), account)
    }
}

/// The refusal for an account without an open browser.
pub open spec fn not_open_message(account: Seq<char>) -> Seq<char> {
    "账号 "@ + account + " 未启动，请先打开"@
}

/// How to switch the screen to `account_id`: refused unless a browser is
/// open for it; otherwise hide every other account's window and show its
/// own (the first entry of that account).
pub fn plan_switch(entries: &Vec<BrowserEntry>, account_id: &str) -> (r: Result<SwitchPlan, String>)
    ensures
        entry_of(entries@, account_id@) < 0 ==> (r matches Err(m) && m@ == not_open_message(account_id@)),
        entry_of(entries@, account_id@) >= 0 ==> (r matches Ok(p) && {
            &&& p.hide_pids@ == other_pids(entries@, account_id@)
            &&& p.show_pid == entries@[entry_of(entries@, account_id@)].pid
            &&& p.port == entries@[entry_of(entries@, account_id@)].port
        }),
{
    let mut target: Option<usize> = None;
    let mut hidden: Vec<u32> = Vec::new();
    let mut i: usize = 0;
    while i < entries.len()
        invariant
            i <= entries.len(),
            hidden@ == other_pids(entries@.take(i as int), account_id@),
            target is None ==> entry_of(entries@.take(i as int), account_id@) == -1,
            target matches Some(t) ==> t < i && entry_of(entries@.take(i as int), account_id@) == t,
        decreases entries.len() - i,
    {
        assert(entries@.take(i + 1).drop_last() =~= entries@.take(i as int));
        if str_eq(entries[i].account_id.as_str(), account_id) {
            if target.is_none() {
                target = Some(i);
            }
        } else {
            hidden.push(entries[i].pid);
        }
        i += 1;
    }
    assert(entries@.take(entries.len() as int) =~= entries@);
    match target {
        None => {
            let mut m = owned("账号 ");
            m.append(account_id);
            m.append(" 未启动，请先打开");
            Err(m)
        },
        Some(t) => Ok(SwitchPlan { hide_pids: hidden, show_pid: entries[t].pid, port: entries[t].port }),
    }
}

/// The page target attached to is the first target of kind "page": when
/// there is one, every target before it is of another kind; when there is
/// none, no target is of kind "page".
pub proof fn law_first_page_is_first(t: Seq<PageTarget>)
    ensures
        first_page(t) >= 0 ==> first_page(t) < t.len() && t[first_page(t)].kind@ == "page"@ && forall|j: int|
            0 <= j < first_page(t) ==> #[trigger] t[j].kind@ != "page"@,
        first_page(t) < 0 ==> first_page(t) == -1 && forall|j: int| 0 <= j < t.len() ==> #[trigger] t[j].kind@ != "page"@,
    decreases t.len(),
{
    if t.len() > 0 {
        let d = t.drop_last();
        law_first_page_is_first(d);
        assert forall|j: int| 0 <= j < d.len() implies #[trigger] t[j] == d[j] by {}
    }
}

/// The entry switched to is the first entry of the account: when there is
/// one, no entry before it belongs to the account; when there is none, no
/// entry does.
pub proof fn law_entry_of_is_first(e: Seq<BrowserEntry>, account: Seq<char>)
    ensures
        entry_of(e, account) >= 0 ==> entry_of(e, account) < e.len() && e[entry_of(e, account)].account_id@ == account
            && forall|j: int| 0 <= j < entry_of(e, account) ==> #[trigger] e[j].account_id@ != account,
        entry_of(e, account) < 0 ==> entry_of(e, account) == -1 && forall|j: int| 0 <= j < e.len()
            ==> #[trigger] e[j].account_id@ != account,
    decreases e.len(),
{
    if e.len() > 0 {
        let d = e.drop_last();
        law_entry_of_is_first(d, account);
        assert forall|j: int| 0 <= j < d.len() implies #[trigger] e[j] == d[j] by {}
    }
}

/// The windows hidden on a switch are those of every entry of another
/// account, in order: the entries kept by the filter "belongs to another
/// account", mapped to their processes.
pub proof fn law_other_pids_filter(e: Seq<BrowserEntry>, account: Seq<char>)
    ensures
        other_pids(e, account) == e.filter_map(
            |x: BrowserEntry| if x.account_id@ != account { Some(x.pid) } else { None::<u32> },
        ),
    decreases e.len(),
{
    if e.len() > 0 {
        law_other_pids_filter(e.drop_last(), account);
    }
}

/// Each chat platform opens its own web address; any other name opens
/// WhatsApp Web.
pub proof fn law_platform_addresses(platform: Seq<char>)
    ensures
        platform == "whatsapp"@ ==> platform_url(platform) == "https://web.whatsapp.com"@,
        platform == "telegram"@ ==> platform_url(platform) == "https://web.telegram.org"@,
        platform == "facebook"@ ==> platform_url(platform) == "https://www.facebook.com"@,
        platform == "instagram"@ ==> platform_url(platform) == "https://www.instagram.com"@,
        platform == "x"@ ==> platform_url(platform) == "https://x.com"@,
        platform == "line"@ ==> platform_url(platform) == "https://access.line.me"@,
        platform != "whatsapp"@ && platform != "telegram"@ && platform != "facebook"@ && platform != "instagram"@
            && platform != "x"@ && platform != "line"@ ==> platform_url(platform) == "https://web.whatsapp.com"@,
{
    reveal_strlit("whatsapp");
    reveal_strlit("telegram");
    reveal_strlit("facebook");
    reveal_strlit("instagram");
    reveal_strlit("x");
    reveal_strlit("line");
    assert("whatsapp"@[0] != "telegram"@[0] && "facebook"@[0] != "telegram"@[0] && "instagram"@[0] != "telegram"@[0]);
    assert("x"@.len() != "telegram"@.len() && "line"@.len() != "telegram"@.len());
    assert("whatsapp"@[0] != "facebook"@[0] && "whatsapp"@[0] != "instagram"@[0] && "whatsapp"@[0] != "line"@[0]);
    assert("x"@.len() != "whatsapp"@.len() && "x"@.len() != "facebook"@.len() && "x"@.len() != "instagram"@.len());
    assert("line"@.len() != "whatsapp"@.len() && "line"@.len() != "facebook"@.len() && "line"@.len() != "instagram"@.len());
    assert("facebook"@[0] != "instagram"@[0] && "x"@.len() != "line"@.len());
}

/// The browser of an account is started with debugging on `port`, its
/// profile in `data_dir`, without first-run screens, default-browser check
/// or extensions, placed at (320, 140) with size 1280x800, showing the web
/// address of its platform as an app.
pub proof fn law_session_command_line(port: u16, data_dir: Seq<char>, platform: Seq<char>, args: Seq<Seq<char>>)
    requires
        args == seq![
            port_arg(port),
            data_dir_arg(data_dir),
            "--no-first-run"@,
            "--no-default-browser-check"@,
            "--disable-extensions"@,
            "--window-position=320,140"@,
            "--window-size=1280,800"@,
            "--app="@ + platform_url(platform),
        ],
    ensures
        args.len() == 8,
        args[0] == "--remote-debugging-port="@ + decimal(port as nat),
        args[1] == "--user-data-dir="@ + data_dir,
        args[7] == "--app="@ + platform_url(platform),
        args.contains("--window-position=320,140"@) && args.contains("--window-size=1280,800"@),
{
    assert(args[5] == "--window-position=320,140"@);
    assert(args[6] == "--window-size=1280,800"@);
}

} // verus!
