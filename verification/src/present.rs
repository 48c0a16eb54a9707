//! How an event of a run is put before the user: as a line of output or as a
//! notification, depending on the mode of the run.

use crate::report::{Event, EventView, Mode};
use crate::text::{
    decimal, decimal_text, is_terminal, line_view, span, Output, Span, Tint,
};
use crate::time::{written, zone_offset, DatePattern};
use crate::update::{compose_message, message_line};
use vstd::prelude::*;
use vstd::string::StringExecFns;

verus! {

/// How something is put before the user.
#[derive(Debug, PartialEq, Eq)]
pub enum Delivery {
    /// A line on the standard output.
    Stdout(Vec<Span>),
    /// A line on the standard error.
    Stderr(Vec<Span>),
    /// A notification that offers to open a link. The run waits until the
    /// user has answered or dismissed it.
    Interactive { summary: String, body: String, link: String },
    /// A notification that nothing waits for.
    Alert { summary: String, body: String },
}

/// A delivery as the contracts speak of it.
pub enum DeliveryView {
    Stdout(Seq<(Seq<char>, Tint)>),
    Stderr(Seq<(Seq<char>, Tint)>),
    Interactive { summary: Seq<char>, body: Seq<char>, link: Seq<char> },
    Alert { summary: Seq<char>, body: Seq<char> },
}

impl View for Delivery {
    type V = DeliveryView;

    open spec fn view(&self) -> DeliveryView {
        match *self {
            Delivery::Stdout(line) => DeliveryView::Stdout(line_view(line@)),
            Delivery::Stderr(line) => DeliveryView::Stderr(line_view(line@)),
            Delivery::Interactive { summary, body, link } => DeliveryView::Interactive {
                summary: summary@,
                body: body@,
                link: link@,
            },
            Delivery::Alert { summary, body } => DeliveryView::Alert {
                summary: summary@,
                body: body@,
            },
        }
    }
}

/// The colour in which a piece is shown: its own on a terminal, none elsewhere.
pub open spec fn tinted(tint: Tint, tty: bool) -> Tint {
    if tty {
        tint
    } else {
        Tint::Plain
    }
}

/// How the seconds that a check took are shown.
pub open spec fn elapsed(seconds: u64) -> Seq<char> {
    "["@ + decimal(seconds as nat) + " second"@ + (if seconds != 1 {
        "s"@
    } else {
        ""@
    }) + "]"@
}

/// The line that goes before the sources with updates, given how the
/// checkpoint of the run is written where there is one.
pub open spec fn heading_line(since: Option<Seq<char>>) -> Seq<(Seq<char>, Tint)> {
    match since {
        Some(date) => seq![
            ("The following sources have updated since "@ + date + ":"@, Tint::Plain),
        ],
        None => seq![("The following sources have updates:"@, Tint::Plain)],
    }
}

/// The line for a source with updates in verbose mode.
pub open spec fn summary_line(
    platform: Seq<char>,
    source: Seq<char>,
    count: nat,
    title: Seq<char>,
    released: Seq<char>,
    link: Seq<char>,
    seconds: u64,
    tty: bool,
) -> Seq<(Seq<char>, Tint)> {
    seq![
        (platform, tinted(Tint::Green, tty)),
        (" - "@, Tint::Plain),
        (source, tinted(Tint::Green, tty)),
        (": "@, Tint::Plain),
    ] + message_line(count, title, released, link, tty) + seq![
        (" "@, Tint::Plain),
        (elapsed(seconds), tinted(Tint::Purple, tty)),
    ]
}

/// The line for a source with updates in quiet mode.
pub open spec fn brief_line(source: Seq<char>, title: Seq<char>, link: Seq<char>, tty: bool) -> Seq<
    (Seq<char>, Tint),
> {
    seq![
        (source, tinted(Tint::Green, tty)),
        (": \""@ + title + "\" "@, Tint::Plain),
        (link, tinted(Tint::BrightBlue, tty)),
    ]
}

/// The line for a source whose check failed.
pub open spec fn failure_line(
    platform: Seq<char>,
    source: Seq<char>,
    message: Seq<char>,
    seconds: u64,
    tty: bool,
) -> Seq<(Seq<char>, Tint)> {
    seq![
        (platform, tinted(Tint::Red, tty)),
        (" - "@, Tint::Plain),
        (source, tinted(Tint::Red, tty)),
        (": "@ + message + " "@, Tint::Plain),
        (elapsed(seconds), tinted(Tint::Purple, tty)),
    ]
}

/// How an event is put before the user in a run of the given mode, where
/// `date` is how the date that the event shows is written, if it shows one.
/// Updates and the lines around them go to the standard output, failures and
/// the lines around them to the standard error; a run that notifies turns
/// both into notifications, of which only those for updates offer a link.
/// A line has colours where the output it goes to is a terminal.
pub open spec fn presented(
    event: EventView,
    date: Seq<char>,
    mode: Mode,
    out_tty: bool,
    err_tty: bool,
) -> DeliveryView {
    match event {
        EventView::Heading(since) => DeliveryView::Stdout(
            heading_line(
                match since {
                    Some(_) => Some(date),
                    None => None,
                },
            ),
        ),
        EventView::Found { platform, source, count, earliest, seconds } => match mode {
            Mode::Verbose => DeliveryView::Stdout(
                summary_line(
                    platform,
                    source,
                    count,
                    earliest.title,
                    date,
                    earliest.link,
                    seconds,
                    out_tty,
                ),
            ),
            Mode::Quiet => DeliveryView::Stdout(
                brief_line(source, earliest.title, earliest.link, out_tty),
            ),
            Mode::Notify => DeliveryView::Interactive {
                summary: "Sitch - "@ + source,
                body: earliest.title,
                link: earliest.link,
            },
        },
        EventView::Failed { platform, source, error, seconds } => match mode {
            Mode::Notify => DeliveryView::Alert {
                summary: "Sitch Error - "@ + source,
                body: error.1,
            },
            _ => DeliveryView::Stderr(failure_line(platform, source, error.1, seconds, err_tty)),
        },
        EventView::NoUpdates => DeliveryView::Stderr(
            seq![("No updates at this time."@, Tint::Plain)],
        ),
        EventView::ErrorsHeading => DeliveryView::Stderr(
            seq![("\nThe following errors occurred:"@, Tint::Plain)],
        ),
    }
}

/// How the date that an event shows is written for a time zone that lies
/// `offset` seconds ahead of Greenwich: the checkpoint of the run in a
/// heading, the date of publication of the update that is told of, and
/// nothing for an event that shows no date.
pub open spec fn event_date(event: EventView, offset: int) -> Seq<char> {
    match event {
        EventView::Heading(Some(since)) => written(
            since@.0,
            since@.1,
            offset,
            DatePattern::Since.notation(),
        ),
        EventView::Found { earliest, .. } => written(
            earliest.published_date@.0,
            earliest.published_date@.1,
            offset,
            DatePattern::Release.notation(),
        ),
        _ => Seq::empty(),
    }
}

/// The colour in which a piece is shown: its own on a terminal, none elsewhere.
pub fn tint_for(tint: Tint, tty: bool) -> (shown: Tint)
    ensures
        shown == tinted(tint, tty),
{
    if tty {
        tint
    } else {
        Tint::Plain
    }
}

/// How the seconds that a check took are shown.
pub fn elapsed_text(seconds: u64) -> (text: String)
    ensures
        text@ == elapsed(seconds),
{
    let mut text = "[".to_owned();
    text.append(decimal_text(seconds).as_str());
    text.append(" second");
    if seconds != 1 {
        text.append("s");
    }
    text.append("]");
    proof {
        reveal_strlit("");
    }
    text
}

/// The line that goes before the sources with updates.
pub fn compose_heading(since: Option<&str>) -> (line: Vec<Span>)
    ensures
        line_view(line@) == heading_line(
            match since {
                Some(date) => Some(date@),
                None => None,
            },
        ),
{
    let mut line: Vec<Span> = Vec::new();
    match since {
        Some(date) => {
            let mut text = "The following sources have updated since ".to_owned();
            text.append(date);
            text.append(":");
            line.push(span(text.as_str(), Tint::Plain));
        },
        None => {
            line.push(span("The following sources have updates:", Tint::Plain));
        },
    }
    line
}

/// The line for a source with updates in verbose mode.
pub fn compose_summary(
    platform: &str,
    source: &str,
    count: usize,
    title: &str,
    released: &str,
    link: &str,
    seconds: u64,
    tty: bool,
) -> (line: Vec<Span>)
    ensures
        line_view(line@) == summary_line(
            platform@,
            source@,
            count as nat,
            title@,
            released@,
            link@,
            seconds,
            tty,
        ),
{
    let mut line: Vec<Span> = Vec::new();
    line.push(span(platform, tint_for(Tint::Green, tty)));
    line.push(span(" - ", Tint::Plain));
    line.push(span(source, tint_for(Tint::Green, tty)));
    line.push(span(": ", Tint::Plain));
    let mut message = compose_message(count, title, released, link, tty);
    line.append(&mut message);
    line.push(span(" ", Tint::Plain));
    line.push(span(elapsed_text(seconds).as_str(), tint_for(Tint::Purple, tty)));
    line
}

/// The line for a source with updates in quiet mode.
pub fn compose_brief(source: &str, title: &str, link: &str, tty: bool) -> (line: Vec<Span>)
    ensures
        line_view(line@) == brief_line(source@, title@, link@, tty),
{
    let mut middle = ": \"".to_owned();
    middle.append(title);
    middle.append("\" ");
    let mut line: Vec<Span> = Vec::new();
    line.push(span(source, tint_for(Tint::Green, tty)));
    line.push(span(middle.as_str(), Tint::Plain));
    line.push(span(link, tint_for(Tint::BrightBlue, tty)));
    line
}

/// The line for a source whose check failed.
pub fn compose_failure(platform: &str, source: &str, message: &str, seconds: u64, tty: bool) -> (line:
    Vec<Span>)
    ensures
        line_view(line@) == failure_line(platform@, source@, message@, seconds, tty),
{
    let mut middle = ": ".to_owned();
    middle.append(message);
    middle.append(" ");
    let mut line: Vec<Span> = Vec::new();
    line.push(span(platform, tint_for(Tint::Red, tty)));
    line.push(span(" - ", Tint::Plain));
    line.push(span(source, tint_for(Tint::Red, tty)));
    line.push(span(middle.as_str(), Tint::Plain));
    line.push(span(elapsed_text(seconds).as_str(), tint_for(Tint::Purple, tty)));
    line
}

impl Event {
    /// How the event is put before the user in a run of the given mode,
    /// where `date` is how the date that the event shows is written.
    pub fn present_with(&self, date: &str, mode: Mode, out_tty: bool, err_tty: bool) -> (delivery:
        Delivery)
        ensures
            delivery@ == presented(self@, date@, mode, out_tty, err_tty),
    {
        match self {
            Event::Heading(since) => {
                let shown = match since {
                    Some(_) => Some(date),
                    None => None,
                };
                Delivery::Stdout(compose_heading(shown))
            },
            Event::Found { platform, source, count, earliest, seconds } => match mode {
                Mode::Verbose => Delivery::Stdout(
                    compose_summary(
                        platform.as_str(),
                        source.as_str(),
                        *count,
                        earliest.title.as_str(),
                        date,
                        earliest.link.as_str(),
                        *seconds,
                        out_tty,
                    ),
                ),
                Mode::Quiet => Delivery::Stdout(
                    compose_brief(
                        source.as_str(),
                        earliest.title.as_str(),
                        earliest.link.as_str(),
                        out_tty,
                    ),
                ),
                Mode::Notify => {
                    let mut summary = "Sitch - ".to_owned();
                    summary.append(source.as_str());
                    Delivery::Interactive {
                        summary,
                        body: earliest.title.clone(),
                        link: earliest.link.clone(),
                    }
                },
            },
            Event::Failed { platform, source, error, seconds } => match mode {
                Mode::Notify => {
                    let mut summary = "Sitch Error - ".to_owned();
                    summary.append(source.as_str());
                    Delivery::Alert { summary, body: error.message.clone() }
                },
                _ => Delivery::Stderr(
                    compose_failure(
                        platform.as_str(),
                        source.as_str(),
                        error.message.as_str(),
                        *seconds,
                        err_tty,
                    ),
                ),
            },
            Event::NoUpdates => {
                let mut line: Vec<Span> = Vec::new();
                line.push(span("No updates at this time.", Tint::Plain));
                proof {
                    assert(line_view(line@) =~= seq![("No updates at this time."@, Tint::Plain)]);
                }
                Delivery::Stderr(line)
            },
            Event::ErrorsHeading => {
                let mut line: Vec<Span> = Vec::new();
                line.push(span("\nThe following errors occurred:", Tint::Plain));
                proof {
                    assert(line_view(line@) =~= seq![
                        ("\nThe following errors occurred:"@, Tint::Plain),
                    ]);
                }
                Delivery::Stderr(line)
            },
        }
    }

    /// How the event is put before the user in a run of the given mode. A
    /// date that the event shows is written in the machine's local time; how
    /// far that lies ahead of Greenwich depends on the machine, so the
    /// contract leaves that open.
    pub fn present(&self, mode: Mode, out_tty: bool, err_tty: bool) -> (delivery: Delivery)
        ensures
            exists|offset: int|
                zone_offset(offset) && delivery@ == presented(
                    self@,
                    #[trigger] event_date(self@, offset),
                    mode,
                    out_tty,
                    err_tty,
                ),
    {
        let date = match self {
            Event::Heading(Some(since)) => since.local_text(DatePattern::Since),
            Event::Found { earliest, .. } => earliest.published_date.local_text(
                DatePattern::Release,
            ),
            _ => String::new(),
        };
        let delivery = self.present_with(date.as_str(), mode, out_tty, err_tty);
        proof {
            let offset = match self@ {
                EventView::Heading(Some(since)) => choose|offset: int|
                    zone_offset(offset) && date@ == #[trigger] written(
                        since@.0,
                        since@.1,
                        offset,
                        DatePattern::Since.notation(),
                    ),
                EventView::Found { earliest, .. } => choose|offset: int|
                    zone_offset(offset) && date@ == #[trigger] written(
                        earliest.published_date@.0,
                        earliest.published_date@.1,
                        offset,
                        DatePattern::Release.notation(),
                    ),
                _ => 0int,
            };
            assert(zone_offset(offset));
            assert(date@ == event_date(self@, offset));
        }
        delivery
    }

    /// How the event is put before the user in a run of the given mode, with
    /// colours where the output that it goes to is a terminal. Whether it is
    /// one depends on how the program was started, and how far the machine's
    /// local time lies ahead of Greenwich on the machine, so the contract
    /// leaves both open.
    pub fn show(&self, mode: Mode) -> (delivery: Delivery)
        ensures
            exists|offset: int, out_tty: bool, err_tty: bool|
                zone_offset(offset) && delivery@ == #[trigger] presented(
                    self@,
                    event_date(self@, offset),
                    mode,
                    out_tty,
                    err_tty,
                ),
    {
        let out_tty = is_terminal(Output::Stdout);
        let err_tty = is_terminal(Output::Stderr);
        let delivery = self.present(mode, out_tty, err_tty);
        proof {
            let offset = choose|offset: int|
                zone_offset(offset) && delivery@ == presented(
                    self@,
                    #[trigger] event_date(self@, offset),
                    mode,
                    out_tty,
                    err_tty,
                );
            assert(delivery@ == presented(
                self@,
                event_date(self@, offset),
                mode,
                out_tty,
                err_tty,
            ));
        }
        delivery
    }
}

} // verus!
