use looker::utils::file_handler::get_argument;

fn words(list: &[&str]) -> Vec<String> {
    list.iter().map(|w| w.to_string()).collect()
}

#[test]
fn argument_after_flag_is_returned() {
    let args = words(&["looker", "--env", "prod.env"]);
    assert_eq!(get_argument(&args, "--env"), Ok("prod.env".to_string()));
}

#[test]
fn first_occurrence_of_flag_wins() {
    let args = words(&["looker", "--env", "a.env", "--env", "b.env"]);
    assert_eq!(get_argument(&args, "--env"), Ok("a.env".to_string()));
}

#[test]
fn flag_as_last_word_is_an_error() {
    let args = words(&["looker", "--env"]);
    assert_eq!(
        get_argument(&args, "--env"),
        Err("Empty paramter for flag --env".to_string())
    );
}

#[test]
fn value_may_look_like_a_flag() {
    let args = words(&["looker", "x", "--port"]);
    assert_eq!(get_argument(&args, "x"), Ok("--port".to_string()));
}

#[test]
fn missing_flag_is_an_error() {
    let args = words(&["looker", "--port", "80"]);
    assert_eq!(
        get_argument(&args, "--env"),
        Err("Flag --env not found in args.".to_string())
    );
}

#[test]
fn empty_command_line_has_no_flag() {
    let args: Vec<String> = Vec::new();
    assert_eq!(
        get_argument(&args, "-v"),
        Err("Flag -v not found in args.".to_string())
    );
}
