use task_tracker::cli::{check_port, get_port_from_args, DEFAULT_PORT, MIN_PORT};

fn args(list: &[&str]) -> Vec<String> {
    list.iter().map(|s| s.to_string()).collect()
}

#[test]
fn no_flag_means_the_default_port() {
    assert_eq!(get_port_from_args(&args(&[])), Ok(3000));
    assert_eq!(get_port_from_args(&args(&["todo"])), Ok(DEFAULT_PORT));
    assert_eq!(get_port_from_args(&args(&["todo", "8080", "-port", "--p"])), Ok(3000));
}

#[test]
fn the_port_follows_the_flag() {
    assert_eq!(get_port_from_args(&args(&["todo", "-p", "8080"])), Ok(8080));
    assert_eq!(get_port_from_args(&args(&["todo", "--port", "8080"])), Ok(8080));
    assert_eq!(get_port_from_args(&args(&["-p", "80"])), Ok(MIN_PORT));
    assert_eq!(get_port_from_args(&args(&["todo", "-p", "65535", "extra"])), Ok(65535));
}

#[test]
fn the_first_flag_decides() {
    assert_eq!(get_port_from_args(&args(&["todo", "-p", "8080", "--port", "9090"])), Ok(8080));
    assert_eq!(
        get_port_from_args(&args(&["todo", "--port", "-p", "9090"])),
        Err("Erreur : invalid port.".to_string())
    );
}

#[test]
fn a_port_below_eighty_is_refused() {
    assert_eq!(
        get_port_from_args(&args(&["todo", "-p", "79"])),
        Err("Error : port must be greater than 79.".to_string())
    );
    assert_eq!(
        get_port_from_args(&args(&["todo", "-p", "0"])),
        Err("Error : port must be greater than 79.".to_string())
    );
}

#[test]
fn what_is_no_port_is_refused() {
    for bad in ["abc", "", "65536", "-1", "80 ", "8o80"] {
        assert_eq!(
            get_port_from_args(&args(&["todo", "-p", bad])),
            Err("Erreur : invalid port.".to_string())
        );
    }
}

#[test]
fn a_flag_with_nothing_after_it_is_refused() {
    assert_eq!(
        get_port_from_args(&args(&["todo", "-p"])),
        Err("Erreur : no port given after --port or -p.".to_string())
    );
    assert_eq!(
        get_port_from_args(&args(&["--port"])),
        Err("Erreur : no port given after --port or -p.".to_string())
    );
}

#[test]
fn check_port_decides_from_the_parsed_number() {
    assert_eq!(check_port(Some(80)), Ok(80));
    assert_eq!(check_port(Some(3000)), Ok(3000));
    assert_eq!(check_port(Some(79)), Err("Error : port must be greater than 79.".to_string()));
    assert_eq!(check_port(None), Err("Erreur : invalid port.".to_string()));
}
