use beetle::services::{
    daemon_name, log_file_name, poll_step, queue_row, queue_table, require_services,
    requested_services, service_type_of, start_plan, ApiError, ClientStatus, PollStep,
    ServiceStatus, ServiceType, StartError, StatusType,
};
use beetle::services::{status_style, StatusColour};
use crossterm::style::Stylize;

#[test]
fn status_table_queue() {
    let expect = format!("{}gateway\t\tunknown\t\t{}\np2p\t\tunknown\t\t{}\nstore\t\tunknown\t\t{}\tThe service is currently unavailable\n", "Service\t\tVersion\t\tStatus\n".bold(), "Unknown".dark_yellow(), "Serving".green(), "Down".grey());
    let table = ClientStatus::new(
        Some(ServiceStatus::new(
            ServiceType::Gateway,
            StatusType::Unknown,
            "",
        )),
        Some(ServiceStatus::new(
            ServiceType::P2p,
            StatusType::Serving,
            "",
        )),
        Some(ServiceStatus::new(ServiceType::Store, StatusType::Down, "")),
    );

    let got = queue_table(&table);
    assert_eq!(expect, got);
}

#[test]
fn status_row_queue() {
    struct TestCase {
        row: ServiceStatus,
        output: String,
    }

    let rows = vec![
        TestCase {
            row: ServiceStatus::new(ServiceType::Gateway, StatusType::Unknown, ""),
            output: format!("gateway\t\tunknown\t\t{}\n", "Unknown".dark_yellow()),
        },
        TestCase {
            row: ServiceStatus::new(ServiceType::P2p, StatusType::NotServing, "1.0.0"),
            output: format!("p2p\t\t1.0.0\t\t{}\n", "Not Serving".dark_yellow()),
        },
        TestCase {
            row: ServiceStatus::new(ServiceType::Store, StatusType::Serving, ""),
            output: format!("store\t\tunknown\t\t{}\n", "Serving".green()),
        },
        TestCase {
            row: ServiceStatus::new(ServiceType::Gateway, StatusType::Down, "1.0.0"),
            output: format!(
                "gateway\t\t1.0.0\t\t{}\tThe service is currently unavailable\n",
                "Down".grey()
            ),
        },
    ];

    for row in rows.into_iter() {
        let got = queue_row(&row.row);
        assert_eq!(row.output, got);
    }
}

fn names(v: &[&str]) -> Vec<String> {
    v.iter().map(|s| s.to_string()).collect()
}

fn table(g: StatusType, p: StatusType, s: StatusType) -> ClientStatus {
    ClientStatus::new(
        Some(ServiceStatus::new(ServiceType::Gateway, g, "")),
        Some(ServiceStatus::new(ServiceType::P2p, p, "")),
        Some(ServiceStatus::new(ServiceType::Store, s, "")),
    )
}

#[test]
fn missing_rows_are_unknown() {
    let t = ClientStatus::new(None, None, None);
    assert_eq!(t.gateway.typ, ServiceType::Gateway);
    assert_eq!(t.p2p.status, StatusType::Unknown);
    assert_eq!(t.store.version(), "unknown");
    assert_eq!(t.store.name(), "store");
}

#[test]
fn requests_are_sorted_sets() {
    assert_eq!(requested_services(&vec![]), names(&["gateway", "p2p", "store"]));
    assert_eq!(
        requested_services(&names(&["store", "gateway", "store", "Zed", "p2"])),
        names(&["Zed", "gateway", "p2", "store"])
    );
}

#[test]
fn start_refuses_unknown_services() {
    let t = table(StatusType::Down, StatusType::Down, StatusType::Down);
    match start_plan(&names(&["store", "web", "api", "web"]), &t) {
        Err(e) => {
            let StartError::UnknownServices(u) = &e;
            assert_eq!(u, &names(&["api", "web"]));
            assert_eq!(e.message(), "Unknown services api, web.");
        }
        Ok(_) => panic!("unknown services were accepted"),
    }
    match start_plan(&names(&["ipfs"]), &t) {
        Err(e) => assert_eq!(e.message(), "Unknown service ipfs."),
        Ok(_) => panic!("an unknown service was accepted"),
    }
}

#[test]
fn start_picks_services_not_serving() {
    let t = table(StatusType::Serving, StatusType::NotServing, StatusType::Down);
    let plan = start_plan(&vec![], &t).unwrap();
    assert_eq!(plan, vec![ServiceType::P2p, ServiceType::Store]);
    let plan = start_plan(&names(&["store", "gateway"]), &t).unwrap();
    assert_eq!(plan, vec![ServiceType::Store]);
    let all_up = table(StatusType::Serving, StatusType::Serving, StatusType::Serving);
    assert!(start_plan(&vec![], &all_up).unwrap().is_empty());
}

#[test]
fn require_refuses_the_first_service_down() {
    let t = table(StatusType::Serving, StatusType::Unknown, StatusType::Down);
    match require_services(t, &names(&["store", "p2p"])) {
        Err(ApiError::ConnectionRefused { service }) => assert_eq!(service, ServiceType::P2p),
        Ok(_) => panic!("a service down was accepted"),
    }
    let t = table(StatusType::Serving, StatusType::Unknown, StatusType::Down);
    let back = require_services(t, &names(&["gateway", "other"])).unwrap();
    assert_eq!(back.store.status, StatusType::Down);
}

#[test]
fn polling_reaches_times_out_or_waits() {
    let t = table(StatusType::Serving, StatusType::Down, StatusType::Unknown);
    assert_eq!(poll_step(&t, "gateway", StatusType::Serving, Some(100)), PollStep::Reached);
    assert_eq!(poll_step(&t, "p2p", StatusType::Serving, Some(15)), PollStep::Waiting);
    assert_eq!(poll_step(&t, "p2p", StatusType::Serving, Some(16)), PollStep::TimedOut);
    assert_eq!(poll_step(&t, "store", StatusType::Down, None), PollStep::Waiting);
}

#[test]
fn daemon_and_log_names() {
    assert_eq!(daemon_name("p2p"), "beetle-p2p");
    assert_eq!(log_file_name("store"), "beetle-store.log");
    assert_eq!(service_type_of("gateway"), Some(ServiceType::Gateway));
    assert_eq!(service_type_of("gateway "), None);
    assert_eq!(ServiceType::P2p.name(), "p2p");
}

#[test]
fn statuses_have_their_word_and_colour() {
    assert_eq!(status_style(StatusType::Unknown), ("Unknown", StatusColour::DarkYellow));
    assert_eq!(status_style(StatusType::NotServing), ("Not Serving", StatusColour::DarkYellow));
    assert_eq!(status_style(StatusType::Serving), ("Serving", StatusColour::Green));
    assert_eq!(status_style(StatusType::Down), ("Down", StatusColour::Grey));
}

#[test]
fn rows_carry_the_ansi_escape_codes() {
    let row = ServiceStatus::new(ServiceType::Store, StatusType::Down, "2.1");
    assert_eq!(
        queue_row(&row),
        "store\t\t2.1\t\t\x1b[38;5;7mDown\x1b[39m\tThe service is currently unavailable\n"
    );
    let row = ServiceStatus::new(ServiceType::P2p, StatusType::Serving, "");
    assert_eq!(queue_row(&row), "p2p\t\tunknown\t\t\x1b[38;5;10mServing\x1b[39m\n");
    let t = ClientStatus::new(None, None, None);
    let y = "\x1b[38;5;3mUnknown\x1b[39m";
    assert_eq!(
        queue_table(&t),
        format!("\x1b[1mService\t\tVersion\t\tStatus\n\x1b[0mgateway\t\tunknown\t\t{y}\np2p\t\tunknown\t\t{y}\nstore\t\tunknown\t\t{y}\n")
    );
}
