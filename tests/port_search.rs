use kantara::port::find_available_port;

#[test]
fn first_port_free_is_returned() {
    assert_eq!(find_available_port(3001, |_p: u16| true), Some(3001));
}

#[test]
fn lowest_free_port_after_occupied_run() {
    let r = find_available_port(3001, |p: u16| p >= 3005);
    assert_eq!(r, Some(3005));
}

#[test]
fn occupied_port_never_returned() {
    let r = find_available_port(8081, |p: u16| p % 7 == 0 && p > 8090);
    assert_eq!(r, Some(8092));
}

#[test]
fn whole_window_occupied_gives_none() {
    assert_eq!(find_available_port(3001, |p: u16| p >= 4001), None);
}

#[test]
fn window_is_one_thousand_ports() {
    assert_eq!(find_available_port(3001, |p: u16| p == 4000), Some(4000));
}

#[test]
fn window_saturates_at_top_of_port_space() {
    assert_eq!(find_available_port(65000, |p: u16| p == 65534), Some(65534));
    assert_eq!(find_available_port(65000, |p: u16| p == 65535), Some(65535));
    assert_eq!(find_available_port(65535, |_p: u16| true), Some(65535));
    assert_eq!(find_available_port(65535, |_p: u16| false), None);
    assert_eq!(find_available_port(64536, |p: u16| p == 65535), Some(65535));
    assert_eq!(find_available_port(64535, |p: u16| p == 65535), None);
}
