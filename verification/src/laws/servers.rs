//! The servers of tools, and being let in by them.

use crate::doc::{ArgV, WordsV};
use crate::event::{Event, EventResult, KeyCode, KeyEvent, Rect};
use crate::json::{member, member_reads_back, with_member, JsonV};
use crate::panels::mcp::{button_line, detail_lines, domain_key, list_lines, mcp_step,
    server_details, server_line, server_rows, skill_count, status_style, McpEffectV, McpPanel,
    McpPool, McpView, ServerV};
use crate::popups::oauth_popup::{cancel_params, oauth_lines, oauth_step, OauthEffectV, OauthHint,
    OauthLink, OauthV, PopupV};
use crate::text::{contains_spec, first_of, lowercase_of};
use vstd::prelude::*;

verus! {

/// Enter opens the page of the selected server; on the page of a server that wants to be told who
/// asks, the first button asks it and the second goes back, and there is no asking elsewhere.
pub proof fn the_server_of_the_page_is_asked(
    p: McpPanel,
    ss: Seq<ServerV>,
    key: KeyEvent,
    area: Option<Rect>,
    auth: Seq<char>,
    back: Seq<char>,
)
    requires
        key.press,
        p.selected < ss.len() <= usize::MAX,
        p.detail_idx < ss.len(),
    ensures
        ({
            let (q, r, e) = mcp_step(p, ss, Event::Key(key), area, auth, back);
            let s = ss[p.detail_idx as int];
            &&& r is Consumed
            &&& p.view == McpView::List ==> {
                &&& key.code == KeyCode::Enter ==> q.view == McpView::Detail && q.detail_idx
                    == p.selected && e is Nothing && (ss[p.selected as int].needs_auth
                    ==> q.detail_btn == 1)
                &&& key.code == KeyCode::Down ==> e is Nothing && q == (McpPanel {
                    selected: if p.selected + 1 < ss.len() {
                        (p.selected + 1) as usize
                    } else {
                        p.selected
                    },
                    ..p
                })
                &&& key.code == KeyCode::Up ==> e is Nothing && q == (McpPanel {
                    selected: if p.selected > 0 {
                        (p.selected - 1) as usize
                    } else {
                        0
                    },
                    ..p
                })
                &&& key.code == KeyCode::Esc ==> e is Close
                &&& !(e is StartOauth)
            }
            &&& p.view == McpView::Detail ==> {
                &&& key.code == KeyCode::Enter ==> q.view == McpView::List && e == (
                if s.needs_auth && p.detail_btn == 0 {
                    McpEffectV::StartOauth(s.name)
                } else {
                    McpEffectV::Nothing
                })
                &&& key.code == KeyCode::Left || key.code == KeyCode::Right ==> e is Nothing
                    && q.view == McpView::Detail && q.detail_btn == (if !s.needs_auth {
                    p.detail_btn
                } else if p.detail_btn == 0 {
                    1
                } else {
                    0
                })
                &&& key.code == KeyCode::Esc ==> e is Nothing && q.view == McpView::List
            }
        }),
{
}

/// A status is taken for good where it speaks of a connection, for bad where it speaks of an error
/// or a failure and of no connection, and is unknown else.
pub proof fn a_status_has_its_sign(a: Seq<char>, b: Seq<char>, status: Seq<char>)
    ensures
        status_style(a + "connected"@ + b).0 == "panel-mcp-icon-connected"@,
        !contains_spec(a + "error"@ + b, "connected"@) ==> status_style(a + "error"@ + b).0
            == "panel-mcp-icon-error"@,
        !contains_spec(a + "failed"@ + b, "connected"@) ==> status_style(a + "failed"@ + b).0
            == "panel-mcp-icon-error"@,
        !contains_spec(status, "connected"@) && !contains_spec(status, "error"@) && !contains_spec(
            status,
            "failed"@,
        ) ==> status_style(status).0 == "panel-mcp-icon-unknown"@,
{
    crate::laws::texts::a_part_is_found_wherever_it_stands(a, "connected"@, b);
    crate::laws::texts::a_part_is_found_wherever_it_stands(a, "error"@, b);
    crate::laws::texts::a_part_is_found_wherever_it_stands(a, "failed"@, b);
}

/// The skills of a server are all the commands that begin with its key and a colon.
pub proof fn skills_of_a_server_are_counted(commands: Seq<Seq<char>>, key: Seq<char>, to: int)
    requires
        0 <= to <= commands.len(),
    ensures
        skill_count(commands, key, to) == commands.take(to).filter(
            |c: Seq<char>| first_of(c, ':') < c.len() && c.take(first_of(c, ':')) == key,
        ).len(),
    decreases to,
{
    reveal(Seq::filter);
    if to > 0 {
        skills_of_a_server_are_counted(commands, key, to - 1);
        assert(commands.take(to).drop_last() =~= commands.take(to - 1));
    }
}

/// The key of a server is what stands behind the last colon of its name, in small letters.
pub proof fn a_server_has_its_key(front: Seq<char>, name: Seq<char>)
    requires
        !name.contains(':'),
    ensures
        domain_key(front.push(':') + name) == lowercase_of(name),
        domain_key(name) == lowercase_of(name),
{
    crate::laws::texts::a_text_is_parted_at_the_last_place(front, ':', name);
}

proof fn lemma_rows(
    ss: Seq<ServerV>,
    selected: int,
    commands: Seq<Seq<char>>,
    from: int,
    to: int,
    i: int,
)
    requires
        0 <= from <= to <= ss.len(),
    ensures
        server_rows(ss, selected, commands, from, to).len() == 2 * (to - from),
        from <= i < to ==> server_rows(ss, selected, commands, from, to)[2 * (i - from)]
            == server_line(ss[i], i == selected) && server_rows(
            ss,
            selected,
            commands,
            from,
            to,
        )[2 * (i - from) + 1] == server_details(ss[i], commands),
    decreases to - from,
{
    if to > from {
        lemma_rows(ss, selected, commands, from, to - 1, i);
    }
}

/// The servers are shown with their names and what they offer, the selected one among them and
/// marked, and the numbers of those connected and of all are told.
pub proof fn the_selected_server_is_shown(
    selected: int,
    ss: Seq<ServerV>,
    pool: McpPool,
    commands: Seq<Seq<char>>,
)
    requires
        0 <= selected < ss.len(),
    ensures
        ({
            let d = list_lines(selected, ss, pool, commands);
            &&& d[0][2].words == WordsV::Message(
                "panel-mcp-connected"@,
                seq![
                    ("connected"@, ArgV::Number(pool.connected as nat)),
                    ("total"@, ArgV::Number(pool.total as nat)),
                ],
            )
            &&& exists|at: int|
                {
                    &&& 0 <= at < d.len()
                    &&& (#[trigger] d[at])[0].words == WordsV::Literal(" > "@)
                    &&& d[at][1].words == WordsV::Literal(ss[selected].name)
                    &&& d[at + 1][0].words == WordsV::Message(
                        "panel-mcp-server-detail"@,
                        seq![
                            ("transport"@, ArgV::Text(ss[selected].transport)),
                            ("count"@, ArgV::Number(ss[selected].tools_count)),
                            (
                                "skills"@,
                                ArgV::Number(
                                    skill_count(
                                        commands,
                                        domain_key(ss[selected].name),
                                        commands.len() as int,
                                    ),
                                ),
                            ),
                        ],
                    )
                }
        }),
{
    let visible = crate::panels::mcp::VISIBLE_ITEMS as int;
    let start = crate::list_nav::window_start(selected, visible);
    let end = if start + visible < ss.len() {
        start + visible
    } else {
        ss.len() as int
    };
    lemma_rows(ss, selected, commands, start, end, selected);
    let rows = server_rows(ss, selected, commands, start, end);
    let d = list_lines(selected, ss, pool, commands);
    let k = 2 * (selected - start);
    assert(d[2 + k] == rows[k]);
    assert(d[2 + k + 1] == rows[k + 1]);
    assert(d[2 + k][0].words == WordsV::Literal(" > "@));
}

/// What is typed goes into the code, at its end, and Backspace takes the last character.
pub proof fn the_code_is_typed(
    p: PopupV,
    info: Option<OauthV>,
    link: OauthLink,
    key: KeyEvent,
    area: Option<Rect>,
    labels: Seq<Seq<char>>,
    c: char,
)
    requires
        key.press,
        key.mods.none(),
        !p.btn_focus,
    ensures
        key.code == KeyCode::Char(c) ==> oauth_step(p, info, link, Event::Key(key), area, labels)
            == (
            PopupV { code: p.code.push(c), ..p },
            EventResult::Consumed,
            OauthEffectV::Nothing,
        ),
        key.code == KeyCode::Backspace && p.code.len() > 0 ==> oauth_step(
            p,
            info,
            link,
            Event::Key(key),
            area,
            labels,
        ) == (
            PopupV { code: p.code.drop_last(), ..p },
            EventResult::Consumed,
            OauthEffectV::Nothing,
        ),
        key.code == KeyCode::Tab ==> oauth_step(
            p,
            info,
            link,
            Event::Key(key),
            area,
            labels,
        ).0.btn_focus,
{
}

/// Enter sends the code to the server that asked, under its session; the buttons open the address
/// that it gave, copy it, and give up.
pub proof fn the_code_goes_to_the_server_that_asked(
    p: PopupV,
    i: OauthV,
    key: KeyEvent,
    area: Option<Rect>,
    labels: Seq<Seq<char>>,
)
    requires
        key.press,
        key.mods.none(),
        key.code == KeyCode::Enter,
    ensures
        ({
            let (q, r, e) = oauth_step(
                p,
                Some(i),
                OauthLink::Current,
                Event::Key(key),
                area,
                labels,
            );
            &&& r is Consumed
            &&& !p.btn_focus && p.code.len() > 0 ==> e == OauthEffectV::Submit(i.server, p.code)
            &&& !p.btn_focus && p.code.len() == 0 ==> e is Close
            &&& p.btn_focus && p.btn == 0 ==> e is Open && e->Open_0 == i.url && q.hint == Some(
                OauthHint::BrowserOpened,
            ) && e->Open_1 == q.hint_seq && q.hint_seq != p.hint_seq
            &&& p.btn_focus && p.btn == 1 ==> e == OauthEffectV::Copy(i.url)
            &&& p.btn_focus && p.btn == 2 ==> e == OauthEffectV::Cancel(i.server)
        }),
{
}

/// Giving up names the server and the session.
pub proof fn giving_up_names_the_server(server: Seq<char>, session: JsonV)
    ensures
        member(cancel_params(server, session), "server_name"@) == Some(JsonV::Str(server)),
        member(cancel_params(server, session), "sessionId"@) == Some(session),
{
    reveal_strlit("server_name");
    reveal_strlit("sessionId");
    assert("server_name"@.len() != "sessionId"@.len());
    let first = with_member(Seq::empty(), "server_name"@, JsonV::Str(server));
    member_reads_back(Seq::empty(), "server_name"@, JsonV::Str(server), "sessionId"@);
    member_reads_back(first, "sessionId"@, session, "server_name"@);
}

/// The server that asks is named, and its address is shown.
pub proof fn the_server_that_asks_is_named(p: PopupV, i: OauthV)
    ensures
        oauth_lines(p, Some(i))[1][0].words == WordsV::Literal("  Server: "@ + i.server),
        oauth_lines(p, Some(i)).len() == 11 + crate::wrap::wrap_text_spec(
            i.url,
            crate::popups::oauth_popup::URL_WIDTH as nat,
        ).len(),
        oauth_lines(p, Some(i))[5][0].words == WordsV::Literal(
            "  "@ + crate::wrap::wrap_text_spec(
                i.url,
                crate::popups::oauth_popup::URL_WIDTH as nat,
            )[0],
        ),
{
    crate::wrap::wrapped_text_has_a_line(i.url, crate::popups::oauth_popup::URL_WIDTH as nat);
}

/// The page of a server tells its name, its status, what went wrong, and its address line by line;
/// it offers to be let in only where the server wants to know who asks.
pub proof fn the_page_of_a_server_tells_of_it(s: ServerV, btn: int, i: int, why: Seq<char>)
    ensures
        ({
            let d = detail_lines(s, btn);
            &&& d[1][0].words == WordsV::Literal("  "@ + s.name)
            &&& d[1][3].words == WordsV::Literal(" "@ + s.status)
            &&& s.error_summary == Some(why) ==> d[5][0].words == WordsV::Literal("    "@ + why)
            &&& s.error_summary is None && s.url is Some ==> {
                let lines = crate::wrap::wrap_text_spec(
                    s.url->0,
                    crate::panels::mcp::URL_WIDTH as nat,
                );
                &&& 0 <= i < lines.len() ==> d[5 + i][0].words == WordsV::Literal("    "@ + lines[i])
                &&& d.len() == 5 + lines.len() + 4
            }
        }),
        button_line(s, btn).len() == (if s.needs_auth {
            7nat
        } else {
            3nat
        }),
        s.needs_auth ==> button_line(s, btn)[1].words == WordsV::Message(
            "panel-mcp-detail-btn-auth"@,
            Seq::empty(),
        ) && button_line(s, btn)[5].words == WordsV::Message(
            "panel-mcp-detail-btn-back"@,
            Seq::empty(),
        ),
        !s.needs_auth ==> button_line(s, btn)[1].words == WordsV::Message(
            "panel-mcp-detail-btn-back"@,
            Seq::empty(),
        ),
{
}

/// The code typed so far is shown.
pub proof fn the_code_is_shown(p: PopupV, i: OauthV)
    requires
        p.code.len() > 0,
        !p.btn_focus,
    ensures
        ({
            let d = oauth_lines(p, Some(i));
            d[d.len() - 3][2].words == WordsV::Literal(": "@ + p.code + "▏"@)
        }),
{
}

} // verus!
