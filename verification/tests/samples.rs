use tcp_echo::coin::Coin;
use tcp_echo::company::{all_ceos, Company};
use tcp_echo::inventory::{get_all, ResourceInfo};
use tcp_echo::service::ServiceCallError;
use tcp_echo::text::first_word;

#[test]
fn company_with_a_ceo() {
    let company = Company::new("Abc", "Adam");
    assert_eq!(company.name(), "Abc");
    assert_eq!(company.get_ceo(), Some(String::from("Adam")));
}

#[test]
fn company_without_a_ceo() {
    let company = Company::new("Another sample", "");
    assert_eq!(company.name(), "Another sample");
    assert_eq!(company.get_ceo(), None);
}

#[test]
fn ceos_of_the_companies_that_have_one() {
    let companies = vec![
        Company::new("Abc", "Adam"),
        Company::new("Barzin Pardaz", "Javad"),
        Company::new("Another sample", ""),
        Company::new("Alphabet", "Sandra"),
    ];
    assert_eq!(companies[0].get_ceo(), Some(String::from("Adam")));
    assert_eq!(
        all_ceos(&companies),
        vec![String::from("Adam"), String::from("Javad"), String::from("Sandra")]
    );
}

#[test]
fn ceos_of_no_companies() {
    assert_eq!(all_ceos(&Vec::new()), Vec::<String>::new());
    assert_eq!(all_ceos(&vec![Company::new("Solo", "")]), Vec::<String>::new());
}

#[test]
fn first_word_stops_at_the_first_space() {
    assert_eq!(first_word(&String::from("Mr Barzin")), "Mr");
    assert_eq!(first_word(&String::from("one two three")), "one");
}

#[test]
fn first_word_of_a_single_word_is_the_word() {
    assert_eq!(first_word(&String::from("Barzin")), "Barzin");
}

#[test]
fn first_word_of_empty_text_is_empty() {
    assert_eq!(first_word(&String::new()), "");
}

#[test]
fn first_word_after_a_leading_space_is_empty() {
    assert_eq!(first_word(&String::from(" lead")), "");
    assert_eq!(first_word(&String::from("  ")), "");
}

#[test]
fn first_word_keeps_letters_beyond_ascii() {
    assert_eq!(first_word(&String::from("héllo wörld")), "héllo");
    assert_eq!(first_word(&String::from("日本語 テキスト")), "日本語");
    assert_eq!(first_word(&String::from("tab\tis no space")), "tab\tis");
}

#[test]
fn coins_in_cents() {
    assert_eq!(Coin::Penny.cents(), 1);
    assert_eq!(Coin::Nickle.cents(), 5);
    assert_eq!(Coin::Dime.cents(), 10);
    assert_eq!(Coin::Quarter.cents(), 25);
}

#[test]
fn coins_as_written() {
    assert_eq!(Coin::Penny.format(), "1¢");
    assert_eq!(Coin::Nickle.format(), "5¢");
    assert_eq!(Coin::Dime.format(), "10¢");
    assert_eq!(Coin::Quarter.format(), "25¢");
}

#[test]
fn the_list_holds_the_one_server() {
    let list = get_all();
    assert_eq!(list.servers.len(), 1);
    assert_eq!(list.servers[0].id, "a7957610-bc59-11ed-8f6c-88a4c2e3226d");
    assert_eq!(list.servers[0].ip, "185.121.123.90");
    assert_eq!(
        list.servers[0].resource_info,
        ResourceInfo { cpu: 4, memory: 3000, disk: 100000 }
    );
}

#[test]
fn service_errors_in_words() {
    assert_eq!(
        ServiceCallError::ServiceError().message(),
        "Remote service call returned with error (rejected the request)"
    );
    assert_eq!(
        ServiceCallError::ConnectionError.message(),
        "There was a connection error, e.g. timeout, token error, gateway error, etc."
    );
}

#[test]
fn application_error_gives_its_cause() {
    let error = ServiceCallError::ApplicationError(String::from("Division by zero"));
    assert_eq!(
        error.message(),
        "There was an error (bug) in our application. Cause: `Division by zero`"
    );
    assert_eq!(
        ServiceCallError::ApplicationError(String::new()).message(),
        "There was an error (bug) in our application. Cause: ``"
    );
}

#[test]
fn application_error_prints_as_debug() {
    let result = Err::<(), ServiceCallError>(ServiceCallError::ApplicationError(String::from(
        "Division by zero",
    )));
    assert_eq!(format!("{:?}", result), "Err(ApplicationError(\"Division by zero\"))");
}
