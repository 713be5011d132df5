//! What is shown of a running server and of its end.
use crate::clock::{elapsed_seconds, law_uptime_is_whole_minutes, start_time_text, truncated_div};
use crate::clock::{truncated_rem, uptime, uptime_fields, utc_text};
use crate::clock::{wrapped_u32, Timestamp, START_TIME_FORMAT};
use crate::error::{process_message, ProcessError};
use crate::process::ProcessInfo;
use crate::report::{Line, Report, Style};
use crate::report::{blank_line, field_line, law_line_says_its_pieces, lemma_shows, line_text};
use crate::report::{lemma_shows_in, shows, shows_in, styled_line, text_line};
use crate::text::{decimal, decimal_text, signed_decimal, signed_decimal_text};
use vstd::prelude::*;

verus! {

/// What is shown before a server is stopped.
pub open spec fn stopping_lines(force: bool) -> Seq<Seq<(Style, Seq<char>)>> {
    if force {
        seq![
            styled_line(Style::YellowBold, "Stopping CodeGraph MCP Server..."@),
            text_line("Force stopping server"@),
        ]
    } else {
        seq![styled_line(Style::YellowBold, "Stopping CodeGraph MCP Server..."@)]
    }
}

/// What is shown before a server is stopped.
pub fn stopping_notice(force: bool) -> (r: Report)
    ensures
        r@ == stopping_lines(force),
{
    let mut r = Report::new();
    r.styled(Style::YellowBold, "Stopping CodeGraph MCP Server...");
    if force {
        r.text("Force stopping server");
    }
    assert(r@ =~= stopping_lines(force));
    r
}

/// What is shown after a server was stopped.
pub fn stopped_notice() -> (r: Report)
    ensures
        r@ == seq![text_line("✓ Server stopped"@)],
{
    let mut r = Report::new();
    r.text("✓ Server stopped");
    r
}

/// How long a server has been up, as it is shown.
pub open spec fn uptime_line(start: Timestamp, now: Timestamp) -> Seq<(Style, Seq<char>)> {
    let seconds = elapsed_seconds(start, now);
    seq![
        (Style::Plain, "Uptime: "@),
        (Style::Plain, signed_decimal(truncated_div(seconds, 3600))),
        (Style::Plain, "h "@),
        (
            Style::Plain,
            decimal(wrapped_u32(truncated_rem(truncated_div(seconds, 60), 60)) as nat),
        ),
        (Style::Plain, "m"@),
    ]
}

/// What is always shown of a running server.
pub open spec fn running_lines(info: ProcessInfo, now: Timestamp) -> Seq<Seq<(Style, Seq<char>)>> {
    seq![
        styled_line(Style::BlueBold, "CodeGraph MCP Server Status"@),
        blank_line(),
        field_line("Server: "@, Style::Green, "Running"@),
        field_line("Transport: "@, Style::Plain, info.transport@),
        field_line("Process ID: "@, Style::Plain, decimal(info.pid as nat)),
        uptime_line(info.start_time, now),
    ]
}

/// What is shown of a running server on request: its start, and its configuration file if it has one.
pub open spec fn detail_lines(
    info: ProcessInfo,
    start: Seq<char>,
    config: Seq<char>,
) -> Seq<Seq<(Style, Seq<char>)>> {
    let lines = seq![
        blank_line(),
        text_line("Detailed Information:"@),
        field_line("  Start Time: "@, Style::Plain, start),
    ];
    if info.config_path is Some {
        lines.push(field_line("  Config File: "@, Style::Plain, config))
    } else {
        lines
    }
}

/// What is shown when no server is found, for the given reason.
pub open spec fn not_running_lines(reason: Seq<char>) -> Seq<Seq<(Style, Seq<char>)>> {
    seq![
        styled_line(Style::BlueBold, "CodeGraph MCP Server Status"@),
        blank_line(),
        field_line("Server: "@, Style::Red, "Not Running"@),
        field_line("Error: "@, Style::Plain, reason),
    ]
}

/// What is always shown of a running server.
pub fn running_report(info: &ProcessInfo, now: Timestamp) -> (r: Report)
    ensures
        r@ == running_lines(*info, now),
{
    let up = uptime(info.start_time, now);
    let mut r = Report::new();
    r.styled(Style::BlueBold, "CodeGraph MCP Server Status");
    r.blank();
    r.field("Server: ", Style::Green, "Running");
    r.field("Transport: ", Style::Plain, info.transport.as_str());
    r.field("Process ID: ", Style::Plain, decimal_text(info.pid as u64).as_str());
    r.push(
        Line::new().plain("Uptime: ").plain(signed_decimal_text(up.hours).as_str()).plain(
            "h ",
        ).plain(decimal_text(up.minutes as u64).as_str()).plain("m"),
    );
    assert(r@ =~~= running_lines(*info, now));
    r
}

/// What is shown of a running server, with its details. `start` says when it was started, `config` which
/// configuration file it has, if it has one.
pub fn detailed_report(info: &ProcessInfo, now: Timestamp, start: &str, config: &str) -> (r: Report)
    ensures
        r@ == running_lines(*info, now) + detail_lines(*info, start@, config@),
{
    let mut r = running_report(info, now);
    r.blank();
    r.text("Detailed Information:");
    r.field("  Start Time: ", Style::Plain, start);
    match &info.config_path {
        Some(_) => {
            r.field("  Config File: ", Style::Plain, config);
        },
        None => {},
    }
    assert(r@ =~~= running_lines(*info, now) + detail_lines(*info, start@, config@));
    r
}

/// What is shown of a running server. `config` says which configuration file it has, if it has one.
/// There is nothing to show if details are asked for and the start lies beyond the calendar or has
/// nanoseconds that no second has.
pub fn status_report(
    info: &ProcessInfo,
    now: Timestamp,
    detailed: bool,
    config: &str,
) -> (r: Option<Report>)
    ensures
        ({
            let start = utc_text(info.start_time.secs, info.start_time.nanos, START_TIME_FORMAT@);
            match r {
                Some(report) => if detailed {
                    start is Some && report@ == running_lines(*info, now) + detail_lines(
                        *info,
                        start->0,
                        config@,
                    )
                } else {
                    report@ == running_lines(*info, now)
                },
                None => detailed && start is None,
            }
        }),
{
    if !detailed {
        return Some(running_report(info, now));
    }
    match start_time_text(info.start_time) {
        Some(start) => Some(detailed_report(info, now, start.as_str(), config)),
        None => None,
    }
}

/// What is shown when no server is found, for the given reason.
pub fn not_running_report(reason: &str) -> (r: Report)
    ensures
        r@ == not_running_lines(reason@),
{
    let mut r = Report::new();
    r.styled(Style::BlueBold, "CodeGraph MCP Server Status");
    r.blank();
    r.field("Server: ", Style::Red, "Not Running");
    r.field("Error: ", Style::Plain, reason);
    assert(r@ =~= not_running_lines(reason@));
    r
}

/// What is shown of a running server of which only the process number is known.
pub open spec fn bare_lines(pid: nat) -> Seq<Seq<(Style, Seq<char>)>> {
    seq![
        styled_line(Style::BlueBold, "CodeGraph MCP Server Status"@),
        blank_line(),
        field_line("Server: "@, Style::Green, "Running"@),
        field_line("Process ID: "@, Style::Plain, decimal(pid)),
    ]
}

/// What is shown of a running server of which only the process number is known.
pub fn bare_report(pid: u32) -> (r: Report)
    ensures
        r@ == bare_lines(pid as nat),
{
    let mut r = Report::new();
    r.styled(Style::BlueBold, "CodeGraph MCP Server Status");
    r.blank();
    r.field("Server: ", Style::Green, "Running");
    r.field("Process ID: ", Style::Plain, decimal_text(pid as u64).as_str());
    assert(r@ =~= bare_lines(pid as nat));
    r
}

/// What is shown of the server with the process number `pid`, by what was found of it. A process that
/// runs is shown as running, also where nothing else is known of it; any other error is shown as one.
/// There is nothing to show where `status_report` shows nothing.
pub fn found_report(
    found: &Result<ProcessInfo, ProcessError>,
    pid: u32,
    now: Timestamp,
    detailed: bool,
    config: &str,
) -> (r: Option<Report>)
    ensures
        match found {
            Ok(info) => {
                let start = utc_text(
                    info.start_time.secs,
                    info.start_time.nanos,
                    START_TIME_FORMAT@,
                );
                match r {
                    Some(report) => if detailed {
                        start is Some && report@ == running_lines(*info, now) + detail_lines(
                            *info,
                            start->0,
                            config@,
                        )
                    } else {
                        report@ == running_lines(*info, now)
                    },
                    None => detailed && start is None,
                }
            },
            Err(ProcessError::InfoNotFound) => r matches Some(report) && report@ == bare_lines(
                pid as nat,
            ),
            Err(e) => r matches Some(report) && report@ == not_running_lines(process_message(*e)),
        },
{
    match found {
        Ok(info) => status_report(info, now, detailed, config),
        Err(ProcessError::InfoNotFound) => Some(bare_report(pid)),
        Err(e) => Some(not_running_report(e.message().as_str())),
    }
}

/// A server that started at `start` outside a leap second, and has been up since for `h` hours, `m` minutes
/// and less than another minute, is shown with just these hours and minutes.
pub proof fn law_uptime_is_shown(start: Timestamp, now: Timestamp, h: nat, m: nat)
    requires
        start.nanos < 1_000_000_000,
        now.nanos < 1_000_000_000,
        m < 60,
        (h * 60 + m) * 60_000_000_000 <= (now.secs - start.secs) * 1_000_000_000 + (now.nanos
            - start.nanos) < (h * 60 + m + 1) * 60_000_000_000,
    ensures
        line_text(uptime_line(start, now)) == "Uptime: "@ + decimal(h) + "h "@ + decimal(m) + "m"@,
{
    law_uptime_is_whole_minutes(start, now);
    let (hours, minutes) = uptime_fields(start, now);
    assert(hours * 60 + minutes == h * 60 + m);
    assert(hours == h && minutes == m);
    law_line_says_its_pieces(uptime_line(start, now));
}

/// A running server is shown as running, with its transport, its process number and its uptime.
pub proof fn law_running_server_is_shown(info: ProcessInfo, now: Timestamp)
    ensures
        shows(running_lines(info, now), "Server: "@ + "Running"@),
        shows(running_lines(info, now), "Transport: "@ + info.transport@),
        shows(running_lines(info, now), "Process ID: "@ + decimal(info.pid as nat)),
        shows(running_lines(info, now), line_text(uptime_line(info.start_time, now))),
        running_lines(info, now).len() == 6,
{
    let lines = running_lines(info, now);
    lemma_shows(lines, 2, "Server: "@ + "Running"@);
    lemma_shows(lines, 3, "Transport: "@ + info.transport@);
    lemma_shows(lines, 4, "Process ID: "@ + decimal(info.pid as nat));
    assert(line_text(lines[5]) == line_text(uptime_line(info.start_time, now)));
}

/// The details of a server are its start, and its configuration file exactly if it has one.
pub proof fn law_details_are_shown(info: ProcessInfo, start: Seq<char>, config: Seq<char>)
    ensures
        shows(detail_lines(info, start, config), "  Start Time: "@ + start),
        info.config_path is Some ==> shows(
            detail_lines(info, start, config),
            "  Config File: "@ + config,
        ),
        detail_lines(info, start, config).len() == if info.config_path is Some {
            4nat
        } else {
            3nat
        },
{
    lemma_shows(detail_lines(info, start, config), 2, "  Start Time: "@ + start);
    if info.config_path is Some {
        lemma_shows(detail_lines(info, start, config), 3, "  Config File: "@ + config);
    }
}

/// A server of which only the process number is known is shown as running with that number, and one that
/// is not found as not running, with the reason.
pub proof fn law_other_servers_are_shown(pid: nat, reason: Seq<char>)
    ensures
        shows(bare_lines(pid), "Server: "@ + "Running"@),
        shows(bare_lines(pid), "Process ID: "@ + decimal(pid)),
        bare_lines(pid).len() == 4,
        shows(not_running_lines(reason), "Server: "@ + "Not Running"@),
        shows(not_running_lines(reason), "Error: "@ + reason),
        not_running_lines(reason).len() == 4,
{
    lemma_shows(bare_lines(pid), 2, "Server: "@ + "Running"@);
    lemma_shows(bare_lines(pid), 3, "Process ID: "@ + decimal(pid));
    lemma_shows(not_running_lines(reason), 2, "Server: "@ + "Not Running"@);
    lemma_shows(not_running_lines(reason), 3, "Error: "@ + reason);
}

/// It is told that a server is being stopped, and that it is by force exactly if it is.
pub proof fn law_stopping_is_told(force: bool)
    ensures
        shows(stopping_lines(force), "Stopping CodeGraph MCP Server..."@),
        force ==> shows(stopping_lines(force), "Force stopping server"@),
        stopping_lines(force).len() == if force {
            2nat
        } else {
            1nat
        },
{
    lemma_shows(stopping_lines(force), 0, "Stopping CodeGraph MCP Server..."@);
    if force {
        lemma_shows(stopping_lines(force), 1, "Force stopping server"@);
    }
}

/// Only a server that runs is shown in green; one that does not run is shown in red.
pub proof fn law_colours_of_a_status(
    info: ProcessInfo,
    now: Timestamp,
    pid: nat,
    reason: Seq<char>,
    force: bool,
)
    ensures
        shows_in(running_lines(info, now), Style::Green, "Running"@),
        shows_in(bare_lines(pid), Style::Green, "Running"@),
        shows_in(not_running_lines(reason), Style::Red, "Not Running"@),
        shows_in(running_lines(info, now), Style::BlueBold, "CodeGraph MCP Server Status"@),
        shows_in(bare_lines(pid), Style::BlueBold, "CodeGraph MCP Server Status"@),
        shows_in(not_running_lines(reason), Style::BlueBold, "CodeGraph MCP Server Status"@),
        shows_in(stopping_lines(force), Style::YellowBold, "Stopping CodeGraph MCP Server..."@),
        !shows_in(not_running_lines(reason), Style::Green, "Running"@),
{
    lemma_shows_in(running_lines(info, now), 2, 1, Style::Green, "Running"@);
    lemma_shows_in(bare_lines(pid), 2, 1, Style::Green, "Running"@);
    lemma_shows_in(not_running_lines(reason), 2, 1, Style::Red, "Not Running"@);
    lemma_shows_in(running_lines(info, now), 0, 0, Style::BlueBold, "CodeGraph MCP Server Status"@);
    lemma_shows_in(bare_lines(pid), 0, 0, Style::BlueBold, "CodeGraph MCP Server Status"@);
    lemma_shows_in(
        not_running_lines(reason),
        0,
        0,
        Style::BlueBold,
        "CodeGraph MCP Server Status"@,
    );
    lemma_shows_in(
        stopping_lines(force),
        0,
        0,
        Style::YellowBold,
        "Stopping CodeGraph MCP Server..."@,
    );
}

} // verus!
