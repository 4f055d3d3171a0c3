//! The rules of the command line tool that starts, stops and watches the
//! daemons of a node: which services a request names, which of them must be
//! started, when a wait for a status is over, and the text of the status table.
use vstd::prelude::*;
use vstd::string::*;
use crossterm::style::Stylize;
use crate::text_order::{contains_text, insert_sorted, same_text, strictly_sorted, texts, text_lt};

verus! {

/// How long a started or stopped daemon is given to report its new status.
pub const SERVICE_START_TIMEOUT_SECONDS: u64 = 15;

/// The services of a node, each run as a daemon of its own.
#[derive(Debug, Clone, Copy, PartialEq, Eq)]
pub enum ServiceType {
    Gateway,
    P2p,
    Store,
}

/// What a service last reported of itself.
#[derive(Debug, Clone, Copy, PartialEq, Eq, Structural)]
pub enum StatusType {
    Unknown,
    NotServing,
    Serving,
    Down,
}

/// The name of a service, as its daemon and the status table call it.
pub open spec fn service_name(t: ServiceType) -> Seq<char> {
    match t {
        ServiceType::Gateway => "gateway"@,
        ServiceType::P2p => "p2p"@,
        ServiceType::Store => "store"@,
    }
}

/// `name` is the name of one of the services.
pub open spec fn is_service_name(name: Seq<char>) -> bool {
    exists|t: ServiceType| service_name(t) == name
}

/// Different services have different names.
pub proof fn lemma_service_names_differ(a: ServiceType, b: ServiceType)
    ensures
        a != b ==> service_name(a) != service_name(b),
{
    reveal_strlit("gateway");
    reveal_strlit("p2p");
    reveal_strlit("store");
    assert("gateway"@.len() == 7);
    assert("p2p"@.len() == 3);
    assert("store"@.len() == 5);
}

impl ServiceType {
    /// The name of the service.
    pub fn name(&self) -> (r: &'static str)
        ensures
            r@ == service_name(*self),
    {
        match self {
            ServiceType::Gateway => "gateway",
            ServiceType::P2p => "p2p",
            ServiceType::Store => "store",
        }
    }
}

/// The service of a name, if it names one.
pub fn service_type_of(name: &str) -> (r: Option<ServiceType>)
    ensures
        match r {
            Some(t) => service_name(t) == name@,
            None => !is_service_name(name@),
        },
{
    if same_text(name, "gateway") {
        Some(ServiceType::Gateway)
    } else if same_text(name, "p2p") {
        Some(ServiceType::P2p)
    } else if same_text(name, "store") {
        Some(ServiceType::Store)
    } else {
        proof {
            assert forall|t: ServiceType| service_name(t) != name@ by {
                match t {
                    ServiceType::Gateway => {},
                    ServiceType::P2p => {},
                    ServiceType::Store => {},
                }
            }
        }
        None
    }
}

/// The status of one service, with the version that it reported (empty where
/// it reported none).
#[derive(Debug)]
pub struct ServiceStatus {
    pub typ: ServiceType,
    pub status: StatusType,
    pub version: String,
}

/// The version as the status table shows it: `unknown` where none was
/// reported.
pub open spec fn shown_version(row: ServiceStatus) -> Seq<char> {
    if row.version@.len() == 0 {
        "unknown"@
    } else {
        row.version@
    }
}

impl ServiceStatus {
    pub fn new(typ: ServiceType, status: StatusType, version: &str) -> (r: ServiceStatus)
        ensures
            r.typ == typ,
            r.status == status,
            r.version@ == version@,
    {
        ServiceStatus { typ, status, version: version.to_owned() }
    }

    /// The name of the service.
    pub fn name(&self) -> (r: &'static str)
        ensures
            r@ == service_name(self.typ),
    {
        self.typ.name()
    }

    /// The reported version, or `unknown`.
    pub fn version(&self) -> (r: &str)
        ensures
            r@ == shown_version(*self),
    {
        if self.version.as_str().is_empty() {
            "unknown"
        } else {
            self.version.as_str()
        }
    }

    pub fn status(&self) -> (r: StatusType)
        ensures
            r == self.status,
    {
        self.status
    }
}

/// The status of every service of a node.
#[derive(Debug)]
pub struct ClientStatus {
    pub gateway: ServiceStatus,
    pub p2p: ServiceStatus,
    pub store: ServiceStatus,
}

/// The row of a service in a status table.
pub open spec fn row_of(table: ClientStatus, t: ServiceType) -> ServiceStatus {
    match t {
        ServiceType::Gateway => table.gateway,
        ServiceType::P2p => table.p2p,
        ServiceType::Store => table.store,
    }
}

impl ClientStatus {
    /// A table of the given rows; a service without one is of unknown status
    /// and version.
    pub fn new(
        gateway: Option<ServiceStatus>,
        p2p: Option<ServiceStatus>,
        store: Option<ServiceStatus>,
    ) -> (r: ClientStatus)
        ensures
            gateway matches Some(s) ==> r.gateway == s,
            p2p matches Some(s) ==> r.p2p == s,
            store matches Some(s) ==> r.store == s,
            gateway is None ==> r.gateway.typ == ServiceType::Gateway && r.gateway.status
                == StatusType::Unknown && r.gateway.version@.len() == 0,
            p2p is None ==> r.p2p.typ == ServiceType::P2p && r.p2p.status == StatusType::Unknown
                && r.p2p.version@.len() == 0,
            store is None ==> r.store.typ == ServiceType::Store && r.store.status
                == StatusType::Unknown && r.store.version@.len() == 0,
    {
        proof {
            reveal_strlit("");
        }
        let gateway = match gateway {
            Some(s) => s,
            None => ServiceStatus::new(ServiceType::Gateway, StatusType::Unknown, ""),
        };
        let p2p = match p2p {
            Some(s) => s,
            None => ServiceStatus::new(ServiceType::P2p, StatusType::Unknown, ""),
        };
        let store = match store {
            Some(s) => s,
            None => ServiceStatus::new(ServiceType::Store, StatusType::Unknown, ""),
        };
        ClientStatus { gateway, p2p, store }
    }

    /// The row of a service.
    pub fn row(&self, t: ServiceType) -> (r: &ServiceStatus)
        ensures
            *r == row_of(*self, t),
    {
        match t {
            ServiceType::Gateway => &self.gateway,
            ServiceType::P2p => &self.p2p,
            ServiceType::Store => &self.store,
        }
    }
}

/// The ANSI rendering of `text` in bold: the escape sequence that sets the
/// attribute, the text, and the one that resets every attribute and colour.
pub open spec fn ansi_bold(text: Seq<char>) -> Seq<char> {
    "\x1b[1m"@ + text + "\x1b[0m"@
}

/// The ANSI rendering of `text` in dark yellow (colour 3 of the 256), then
/// the foreground colour reset.
pub open spec fn ansi_dark_yellow(text: Seq<char>) -> Seq<char> {
    "\x1b[38;5;3m"@ + text + "\x1b[39m"@
}

/// The ANSI rendering of `text` in green (colour 10 of the 256).
pub open spec fn ansi_green(text: Seq<char>) -> Seq<char> {
    "\x1b[38;5;10m"@ + text + "\x1b[39m"@
}

/// The ANSI rendering of `text` in grey (colour 7 of the 256).
pub open spec fn ansi_grey(text: Seq<char>) -> Seq<char> {
    "\x1b[38;5;7m"@ + text + "\x1b[39m"@
}

/// `crossterm`'s `Stylize::bold`, displayed. Where the terminal takes escape
/// codes (Unix, recent Windows) the display is the ANSI rendering; on a
/// Windows console without them `crossterm` styles the console directly and
/// the display is empty. Which of the two, the contract leaves open.
#[verifier::external_body]
fn bold_text(text: &str) -> (r: String)
    ensures
        r@ == ansi_bold(text@) || r@ == Seq::<char>::empty(),
{
    format!("{}", text.bold())
}

/// `crossterm`'s `Stylize::dark_yellow`, displayed (see `bold_text`).
#[verifier::external_body]
fn dark_yellow_text(text: &str) -> (r: String)
    ensures
        r@ == ansi_dark_yellow(text@) || r@ == Seq::<char>::empty(),
{
    format!("{}", text.dark_yellow())
}

/// `crossterm`'s `Stylize::green`, displayed (see `bold_text`).
#[verifier::external_body]
fn green_text(text: &str) -> (r: String)
    ensures
        r@ == ansi_green(text@) || r@ == Seq::<char>::empty(),
{
    format!("{}", text.green())
}

/// `crossterm`'s `Stylize::grey`, displayed (see `bold_text`).
#[verifier::external_body]
fn grey_text(text: &str) -> (r: String)
    ensures
        r@ == ansi_grey(text@) || r@ == Seq::<char>::empty(),
{
    format!("{}", text.grey())
}

/// `shown` is what a terminal that takes escape codes shows as `styled`, or
/// the empty text that a console styled directly receives.
pub open spec fn styled_as(styled: Seq<char>, shown: Seq<char>) -> bool {
    shown == styled || shown == Seq::<char>::empty()
}

/// The word for a status in the table.
pub open spec fn status_label(s: StatusType) -> Seq<char> {
    match s {
        StatusType::Unknown => "Unknown"@,
        StatusType::NotServing => "Not Serving"@,
        StatusType::Serving => "Serving"@,
        StatusType::Down => "Down"@,
    }
}

/// The colours that statuses are shown in.
#[derive(Debug, Clone, Copy, PartialEq, Eq)]
pub enum StatusColour {
    DarkYellow,
    Green,
    Grey,
}

/// The colour of a status: yellow while unknown or not serving, green while
/// serving, grey when down.
pub open spec fn status_colour(s: StatusType) -> StatusColour {
    match s {
        StatusType::Unknown => StatusColour::DarkYellow,
        StatusType::NotServing => StatusColour::DarkYellow,
        StatusType::Serving => StatusColour::Green,
        StatusType::Down => StatusColour::Grey,
    }
}

/// The ANSI rendering of `text` in colour `c`.
pub open spec fn coloured(c: StatusColour, text: Seq<char>) -> Seq<char> {
    match c {
        StatusColour::DarkYellow => ansi_dark_yellow(text),
        StatusColour::Green => ansi_green(text),
        StatusColour::Grey => ansi_grey(text),
    }
}

/// The word for a status, in its colour.
pub open spec fn status_styled(s: StatusType) -> Seq<char> {
    coloured(status_colour(s), status_label(s))
}

/// The word that shows a status, and its colour.
pub fn status_style(s: StatusType) -> (r: (&'static str, StatusColour))
    ensures
        r.0@ == status_label(s),
        r.1 == status_colour(s),
{
    match s {
        StatusType::Unknown => ("Unknown", StatusColour::DarkYellow),
        StatusType::NotServing => ("Not Serving", StatusColour::DarkYellow),
        StatusType::Serving => ("Serving", StatusColour::Green),
        StatusType::Down => ("Down", StatusColour::Grey),
    }
}

/// `text` in colour `c`, as the terminal takes it.
pub fn colour_text(text: &str, c: StatusColour) -> (r: String)
    ensures
        styled_as(coloured(c, text@), r@),
{
    match c {
        StatusColour::DarkYellow => dark_yellow_text(text),
        StatusColour::Green => green_text(text),
        StatusColour::Grey => grey_text(text),
    }
}

/// What follows the status of a service that is down.
pub open spec fn down_note(s: StatusType) -> Seq<char> {
    match s {
        StatusType::Down => "\tThe service is currently unavailable"@,
        _ => Seq::<char>::empty(),
    }
}

/// The line of the status table for `row`, its status shown as `status`.
pub open spec fn row_line(row: ServiceStatus, status: Seq<char>) -> Seq<char> {
    service_name(row.typ) + "\t\t"@ + shown_version(row) + "\t\t"@ + status + down_note(row.status)
        + "\n"@
}

/// The heading of the status table.
pub open spec fn table_heading() -> Seq<char> {
    "Service\t\tVersion\t\tStatus\n"@
}

/// The line of the status table for `row`, with `status` as the rendering of
/// its status.
pub fn row_text(row: &ServiceStatus, status: &str) -> (r: String)
    ensures
        r@ == row_line(*row, status@),
{
    let mut s = row.name().to_owned();
    s.append("\t\t");
    s.append(row.version());
    s.append("\t\t");
    s.append(status);
    let ghost before_note = s@;
    match row.status {
        StatusType::Down => s.append("\tThe service is currently unavailable"),
        _ => {
            assert(s@ =~= before_note + Seq::<char>::empty());
        },
    }
    s.append("\n");
    s
}

/// The text queued for a row of the status table: the
/// service, its version and its status in colour, on a line.
pub fn queue_row(row: &ServiceStatus) -> (r: String)
    ensures
        exists|status: Seq<char>|
            styled_as(status_styled(row.status), status) && r@ == #[trigger] row_line(*row, status),
{
    let (label, colour) = status_style(row.status);
    let status = colour_text(label, colour);
    let r = row_text(row, status.as_str());
    assert(styled_as(status_styled(row.status), status@));
    assert(r@ == row_line(*row, status@));
    r
}

/// The status table: a bold heading, then the rows of the gateway, the p2p
/// node and the store, in that order.
pub fn queue_table(table: &ClientStatus) -> (r: String)
    ensures
        exists|heading: Seq<char>, g: Seq<char>, p: Seq<char>, s: Seq<char>|
            #[trigger] styled_as(ansi_bold(table_heading()), heading) && styled_as(
                status_styled(table.gateway.status),
                g,
            ) && styled_as(status_styled(table.p2p.status), p) && styled_as(
                status_styled(table.store.status),
                s,
            ) && r@ == heading + #[trigger] row_line(table.gateway, g) + #[trigger] row_line(
                table.p2p,
                p,
            ) + #[trigger] row_line(table.store, s),
{
    let mut out = bold_text("Service\t\tVersion\t\tStatus\n");
    let ghost heading = out@;
    let g = queue_row(&table.gateway);
    let ghost gs = choose|st: Seq<char>|
        styled_as(status_styled(table.gateway.status), st) && g@ == row_line(table.gateway, st);
    out.append(g.as_str());
    let p = queue_row(&table.p2p);
    let ghost ps = choose|st: Seq<char>|
        styled_as(status_styled(table.p2p.status), st) && p@ == row_line(table.p2p, st);
    out.append(p.as_str());
    let s = queue_row(&table.store);
    let ghost ss = choose|st: Seq<char>|
        styled_as(status_styled(table.store.status), st) && s@ == row_line(table.store, st);
    out.append(s.as_str());
    assert(styled_as(ansi_bold(table_heading()), heading));
    assert(styled_as(status_styled(table.gateway.status), gs));
    assert(styled_as(status_styled(table.p2p.status), ps));
    assert(styled_as(status_styled(table.store.status), ss));
    assert(out@ == heading + row_line(table.gateway, gs) + row_line(table.p2p, ps) + row_line(
        table.store,
        ss,
    ));
    out
}

/// The name of the daemon that runs a service.
pub fn daemon_name(service: &str) -> (r: String)
    ensures
        r@ == "beetle-"@ + service@,
{
    let mut s = "beetle-".to_owned();
    s.append(service);
    s
}

/// The name of the file that a service's daemon logs to.
pub fn log_file_name(service: &str) -> (r: String)
    ensures
        r@ == "beetle-"@ + service@ + ".log"@,
{
    let mut s = daemon_name(service);
    s.append(".log");
    s
}

/// The names that a request of services stands for: those it gives, or every
/// service of the node where it gives none.
pub open spec fn requested_set(services: Seq<String>) -> Set<Seq<char>> {
    if services.len() == 0 {
        set![
            service_name(ServiceType::Gateway),
            service_name(ServiceType::P2p),
            service_name(ServiceType::Store),
        ]
    } else {
        texts(services).to_set()
    }
}

/// The names that a request stands for, in order, each once.
pub fn requested_services(services: &Vec<String>) -> (r: Vec<String>)
    ensures
        strictly_sorted(texts(r@)),
        texts(r@).to_set() == requested_set(services@),
{
    let mut r: Vec<String> = Vec::new();
    assert(texts(r@).to_set() =~= Set::<Seq<char>>::empty());
    if services.len() == 0 {
        insert_sorted(&mut r, "gateway".to_owned());
        insert_sorted(&mut r, "p2p".to_owned());
        insert_sorted(&mut r, "store".to_owned());
        assert(texts(r@).to_set() =~= requested_set(services@));
        return r;
    }
    let mut i: usize = 0;
    while i < services.len()
        invariant
            i <= services.len(),
            strictly_sorted(texts(r@)),
            texts(r@).to_set() == texts(services@.subrange(0, i as int)).to_set(),
        decreases services.len() - i,
    {
        let name = services[i].clone();
        insert_sorted(&mut r, name);
        proof {
            let before = texts(services@.subrange(0, i as int));
            assert(texts(services@.subrange(0, i + 1)) =~= before.push(services@[i as int]@));
            before.lemma_push_to_set_commute(services@[i as int]@);
        }
        i = i + 1;
    }
    assert(services@.subrange(0, services.len() as int) =~= services@);
    r
}

/// The service is among `names` and does not report itself serving.
pub open spec fn lacking(names: Set<Seq<char>>, table: ClientStatus, t: ServiceType) -> bool {
    names.contains(service_name(t)) && row_of(table, t).status != StatusType::Serving
}

/// The services among `names` that are not serving, in the order of the
/// status table.
pub open spec fn services_to_start(names: Set<Seq<char>>, table: ClientStatus) -> Seq<ServiceType> {
    (if lacking(names, table, ServiceType::Gateway) {
        seq![ServiceType::Gateway]
    } else {
        Seq::<ServiceType>::empty()
    }) + (if lacking(names, table, ServiceType::P2p) {
        seq![ServiceType::P2p]
    } else {
        Seq::<ServiceType>::empty()
    }) + (if lacking(names, table, ServiceType::Store) {
        seq![ServiceType::Store]
    } else {
        Seq::<ServiceType>::empty()
    })
}

/// The first service, in the order of the status table, that is among
/// `names` and not serving.
pub open spec fn first_lacking(names: Set<Seq<char>>, table: ClientStatus) -> Option<ServiceType> {
    if lacking(names, table, ServiceType::Gateway) {
        Some(ServiceType::Gateway)
    } else if lacking(names, table, ServiceType::P2p) {
        Some(ServiceType::P2p)
    } else if lacking(names, table, ServiceType::Store) {
        Some(ServiceType::Store)
    } else {
        None
    }
}

/// The names among `names` that name no service.
pub open spec fn unknown_names(names: Set<Seq<char>>) -> Set<Seq<char>> {
    names.filter(|n: Seq<char>| !is_service_name(n))
}

/// Why the services of a request cannot be started.
#[derive(Debug)]
pub enum StartError {
    /// The request names services that the node does not run: these, in
    /// order, each once.
    UnknownServices(Vec<String>),
}

/// `names`, separated by a comma and a space.
pub open spec fn joined(names: Seq<Seq<char>>) -> Seq<char>
    decreases names.len(),
{
    if names.len() == 0 {
        Seq::<char>::empty()
    } else if names.len() == 1 {
        names[0]
    } else {
        joined(names.drop_last()) + ", "@ + names.last()
    }
}

/// The message for a request that names the unknown services `names`.
pub open spec fn unknown_services_text(names: Seq<Seq<char>>) -> Seq<char> {
    (if names.len() == 1 {
        "Unknown service"@
    } else {
        "Unknown services"@
    }) + " "@ + joined(names) + "."@
}

impl StartError {
    /// The message that the command line tool reports.
    pub fn message(&self) -> (r: String)
        ensures
            match self {
                StartError::UnknownServices(u) => r@ == unknown_services_text(texts(u@)),
            },
    {
        match self {
            StartError::UnknownServices(u) => {
                let mut s = if u.len() == 1 {
                    "Unknown service".to_owned()
                } else {
                    "Unknown services".to_owned()
                };
                s.append(" ");
                let ghost base = s@;
                let mut i: usize = 0;
                assert(base =~= base + joined(texts(u@).subrange(0, 0)));
                while i < u.len()
                    invariant
                        i <= u.len(),
                        s@ == base + joined(texts(u@).subrange(0, i as int)),
                    decreases u.len() - i,
                {
                    let ghost done = texts(u@).subrange(0, i as int);
                    let ghost next = texts(u@).subrange(0, i + 1);
                    assert(next.drop_last() =~= done);
                    assert(next.last() == u@[i as int]@);
                    if i > 0 {
                        s.append(", ");
                    } else {
                        assert(next.len() == 1);
                    }
                    s.append(u[i].as_str());
                    i = i + 1;
                }
                assert(texts(u@).subrange(0, u.len() as int) =~= texts(u@));
                s.append(".");
                s
            },
        }
    }
}

/// Which of the services that a request stands for must be started, given
/// the status table: an error where it names a service that the node does
/// not run, else those that are not serving, in the order of the table.
pub fn start_plan(services: &Vec<String>, table: &ClientStatus) -> (r: Result<
    Vec<ServiceType>,
    StartError,
>)
    ensures
        match r {
            Ok(m) => unknown_names(requested_set(services@)) == Set::<Seq<char>>::empty()
                && m@ == services_to_start(requested_set(services@), *table),
            Err(StartError::UnknownServices(u)) => u@.len() > 0 && strictly_sorted(texts(u@))
                && texts(u@).to_set() == unknown_names(requested_set(services@)),
        },
{
    let req = requested_services(services);
    let ghost names = requested_set(services@);
    let mut unknown: Vec<String> = Vec::new();
    let mut i: usize = 0;
    assert(texts(unknown@).to_set() =~= texts(req@.subrange(0, 0)).to_set().filter(
        |n: Seq<char>| !is_service_name(n),
    ));
    while i < req.len()
        invariant
            i <= req.len(),
            strictly_sorted(texts(req@)),
            strictly_sorted(texts(unknown@)),
            forall|a: int, j: int|
                0 <= a < unknown.len() && i <= j < req.len() ==> text_lt(
                    #[trigger] texts(unknown@)[a],
                    #[trigger] texts(req@)[j],
                ),
            texts(unknown@).to_set() == texts(req@.subrange(0, i as int)).to_set().filter(
                |n: Seq<char>| !is_service_name(n),
            ),
        decreases req.len() - i,
    {
        let ghost before_u = texts(unknown@);
        let ghost before_r = texts(req@.subrange(0, i as int));
        let ghost x = req@[i as int]@;
        proof {
            assert(texts(req@.subrange(0, i + 1)) =~= before_r.push(x));
            before_r.lemma_push_to_set_commute(x);
        }
        if service_type_of(req[i].as_str()).is_none() {
            let name = req[i].clone();
            unknown.push(name);
            proof {
                assert(texts(unknown@) =~= before_u.push(x));
                before_u.lemma_push_to_set_commute(x);
                assert(texts(unknown@).to_set() =~= before_r.push(x).to_set().filter(
                    |n: Seq<char>| !is_service_name(n),
                ));
                assert forall|a: int, b: int| 0 <= a < b < texts(unknown@).len() implies text_lt(
                    #[trigger] texts(unknown@)[a],
                    #[trigger] texts(unknown@)[b],
                ) by {
                    if b == texts(unknown@).len() - 1 {
                        assert(texts(req@)[i as int] == x);
                    }
                }
                assert forall|a: int, j: int|
                    0 <= a < unknown.len() && i + 1 <= j < req.len() implies text_lt(
                    #[trigger] texts(unknown@)[a],
                    #[trigger] texts(req@)[j],
                ) by {
                    if a == unknown.len() - 1 {
                        assert(texts(req@)[i as int] == x);
                    }
                }
            }
        } else {
            proof {
                assert(texts(unknown@).to_set() =~= before_r.push(x).to_set().filter(
                    |n: Seq<char>| !is_service_name(n),
                ));
            }
        }
        i = i + 1;
    }
    assert(req@.subrange(0, req.len() as int) =~= req@);
    if unknown.len() > 0 {
        return Err(StartError::UnknownServices(unknown));
    }
    assert(unknown_names(names) =~= Set::<Seq<char>>::empty()) by {
        assert forall|n: Seq<char>| !unknown_names(names).contains(n) by {
            if unknown_names(names).contains(n) {
                assert(texts(unknown@).to_set().contains(n));
            }
        }
    }
    let mut m: Vec<ServiceType> = Vec::new();
    if contains_text(&req, "gateway") && table.gateway.status != StatusType::Serving {
        m.push(ServiceType::Gateway);
    }
    let ghost after_gateway = m@;
    if contains_text(&req, "p2p") && table.p2p.status != StatusType::Serving {
        m.push(ServiceType::P2p);
    }
    let ghost after_p2p = m@;
    if contains_text(&req, "store") && table.store.status != StatusType::Serving {
        m.push(ServiceType::Store);
    }
    assert(m@ =~= services_to_start(names, *table));
    Ok(m)
}

/// Why a command cannot go on with the services it needs.
#[derive(Debug)]
pub enum ApiError {
    /// The service is needed and not serving.
    ConnectionRefused { service: ServiceType },
}

/// Checks that every service among `services` is serving, and hands the
/// status table back; else refuses the first, in the order of the table, that
/// is not.
pub fn require_services(table: ClientStatus, services: &Vec<String>) -> (r: Result<
    ClientStatus,
    ApiError,
>)
    ensures
        match r {
            Ok(t) => t == table && first_lacking(texts(services@).to_set(), table) is None,
            Err(ApiError::ConnectionRefused { service }) => first_lacking(
                texts(services@).to_set(),
                table,
            ) == Some(service),
        },
{
    if contains_text(services, "gateway") && table.gateway.status != StatusType::Serving {
        return Err(ApiError::ConnectionRefused { service: ServiceType::Gateway });
    }
    if contains_text(services, "p2p") && table.p2p.status != StatusType::Serving {
        return Err(ApiError::ConnectionRefused { service: ServiceType::P2p });
    }
    if contains_text(services, "store") && table.store.status != StatusType::Serving {
        return Err(ApiError::ConnectionRefused { service: ServiceType::Store });
    }
    Ok(table)
}

/// Where a wait for a service to report a status stands after one status
/// table.
#[derive(Debug, Clone, Copy, PartialEq, Eq)]
pub enum PollStep {
    /// The service reports the status waited for.
    Reached,
    /// The wait has gone on for longer than it is given.
    TimedOut,
    /// The wait goes on.
    Waiting,
}

/// Where a wait for service `t` to report `desired` stands, given a status
/// table and the seconds since the wait began (none where the clock went
/// back).
pub open spec fn poll_outcome(
    table: ClientStatus,
    t: ServiceType,
    desired: StatusType,
    elapsed_secs: Option<u64>,
) -> PollStep {
    if row_of(table, t).status == desired {
        PollStep::Reached
    } else if elapsed_secs matches Some(e) && e > SERVICE_START_TIMEOUT_SECONDS {
        PollStep::TimedOut
    } else {
        PollStep::Waiting
    }
}

/// One step of a wait for the service named `service` to report `desired`.
pub fn poll_step(
    table: &ClientStatus,
    service: &str,
    desired: StatusType,
    elapsed_secs: Option<u64>,
) -> (r: PollStep)
    requires
        is_service_name(service@),
    ensures
        forall|t: ServiceType|
            service_name(t) == service@ ==> r == poll_outcome(*table, t, desired, elapsed_secs),
{
    let t = match service_type_of(service) {
        Some(t) => t,
        None => {
            return PollStep::Waiting;
        },
    };
    proof {
        assert forall|u: ServiceType| service_name(u) == service@ implies u == t by {
            lemma_service_names_differ(u, t);
        }
    }
    if table.row(t).status == desired {
        PollStep::Reached
    } else {
        match elapsed_secs {
            Some(e) => {
                if e > SERVICE_START_TIMEOUT_SECONDS {
                    PollStep::TimedOut
                } else {
                    PollStep::Waiting
                }
            },
            None => PollStep::Waiting,
        }
    }
}

/// Starting has nothing to do for a set of services exactly when requiring
/// that set succeeds: both ask whether any of them is not serving.
pub proof fn lemma_nothing_to_start_iff_all_serving(names: Set<Seq<char>>, table: ClientStatus)
    ensures
        services_to_start(names, table) == Seq::<ServiceType>::empty() <==> first_lacking(
            names,
            table,
        ) is None,
{
    let s = services_to_start(names, table);
    if first_lacking(names, table) is None {
        assert(s =~= Seq::<ServiceType>::empty());
    } else {
        assert(s.len() > 0);
    }
}

} // verus!
