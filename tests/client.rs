use aoj_client::compose::{compose, decimal, escape_segment, query_string};
use aoj_client::error::{check_status, Error};
use aoj_client::solution::{FindAllRequest as FindAllSolutions, FindByProblemIdRequest};
use aoj_client::user::FindAllRequest as FindAllUsers;
use aoj_client::{Client, FindUsersRequest, DEFAULT_SERVER_URL};

const LOCAL: &str = "http://127.0.0.1:1234";

#[test]
fn test_find_users() {
    let client: Client = Client::new(LOCAL).unwrap();
    let url = client.find_users_url(&FindUsersRequest::default().set_size(10));
    assert_eq!("http://127.0.0.1:1234/users?size=10", url);
    assert_eq!(Ok(()), check_status(200, false));
}

#[test]
fn solution_test_find_all() {
    let client = Client::new(LOCAL).unwrap();
    let url = client.solutions().find_all_url(&FindAllSolutions::default().set_size(10));
    assert_eq!("http://127.0.0.1:1234/solutions?size=10", url);
    assert_eq!(Ok(()), check_status(200, false));
}

#[test]
fn test_find_by_problem_id() {
    let client = Client::new(LOCAL).unwrap();
    let request = FindByProblemIdRequest::new("2852".to_string()).set_page(0);
    let url = client.solutions().find_by_problem_id_url(&request).unwrap();
    assert_eq!("http://127.0.0.1:1234/solutions/problems/2852?page=0", url);
    assert_eq!(Ok(()), check_status(200, false));
}

#[test]
fn user_test_find_all() {
    let client = Client::new(LOCAL).unwrap();
    let url = client.users().find_all_url(&FindAllUsers::default().set_size(10));
    assert_eq!("http://127.0.0.1:1234/users?size=10", url);
    assert_eq!(Ok(()), check_status(200, false));
}

#[test]
fn test_find_by_id() {
    let client = Client::new(LOCAL).unwrap();
    let url = client.users().find_by_id_url("ichyo").unwrap();
    assert_eq!("http://127.0.0.1:1234/users/ichyo", url);
    assert_eq!(Ok(()), check_status(200, true));
}

#[test]
fn default_client_uses_fixed_endpoint() {
    let client = Client::default();
    assert_eq!("https://judgeapi.u-aizu.ac.jp/", client.server_url());
    assert_eq!(DEFAULT_SERVER_URL, client.server_url());
    let parsed = Client::new("https://judgeapi.u-aizu.ac.jp").unwrap();
    assert_eq!(client.server_url(), parsed.server_url());
    assert_eq!(
        "https://judgeapi.u-aizu.ac.jp/users",
        client.users().find_all_url(&FindAllUsers::new())
    );
}

#[test]
fn new_normalizes_the_endpoint() {
    let client = Client::new("HTTP://Example.COM").unwrap();
    assert_eq!("http://example.com/", client.server_url());
}

#[test]
fn new_rejects_malformed_urls() {
    assert!(matches!(Client::new("not a url"), Err(Error::InvalidUrl)));
    assert!(matches!(Client::new("/relative/path"), Err(Error::InvalidUrl)));
    assert!(matches!(Client::new(""), Err(Error::InvalidUrl)));
    assert!(matches!(Client::new("http://h/?page=1"), Err(Error::InvalidUrl)));
    assert!(matches!(Client::new("http://h/#top"), Err(Error::InvalidUrl)));
}

#[test]
fn path_joins_onto_the_endpoint_path() {
    let with_slash = Client::new("http://h/api/").unwrap();
    let without_slash = Client::new("http://h/api").unwrap();
    assert_eq!("http://h/api/users", with_slash.users().find_all_url(&FindAllUsers::new()));
    assert_eq!("http://h/api/users", without_slash.users().find_all_url(&FindAllUsers::new()));
    assert_eq!("http://h/api/users", compose("http://h/api/", "/users", None, None));
    assert_eq!("http://h/api/users", compose("http://h/api", "users", None, None));
    assert_eq!(
        "http://h:8080/v1/solutions/problems/ITP1_1_A",
        Client::new("http://h:8080/v1")
            .unwrap()
            .solutions()
            .find_by_problem_id_url(&FindByProblemIdRequest::new("ITP1_1_A".to_string()))
            .unwrap()
    );
}

#[test]
fn query_holds_page_before_size() {
    let client = Client::new(LOCAL).unwrap();
    let request = FindUsersRequest::new().set_size(30).set_page(2);
    assert_eq!(Some(2), request.page);
    assert_eq!(Some(30), request.size);
    assert_eq!("http://127.0.0.1:1234/users?page=2&size=30", client.find_users_url(&request));
    assert_eq!("?page=0&size=0", query_string(Some(0), Some(0)));
    assert_eq!("?page=7", query_string(Some(7), None));
    assert_eq!("?size=10", query_string(None, Some(10)));
    assert_eq!("", query_string(None, None));
    let solutions = FindAllSolutions::new().set_page(1).set_size(4294967295);
    assert_eq!(
        "http://127.0.0.1:1234/solutions?page=1&size=4294967295",
        client.solutions().find_all_url(&solutions)
    );
}

#[test]
fn identifier_is_escaped_as_one_segment() {
    let client = Client::new(LOCAL).unwrap();
    assert_eq!(
        "http://127.0.0.1:1234/users/a%2Fb",
        client.users().find_by_id_url("a/b").unwrap()
    );
    assert_eq!("a%20b%3F%23%25%5C", escape_segment("a b?#%\\"));
    assert_eq!("Az09-._~", escape_segment("Az09-._~"));
    assert_eq!("", escape_segment(""));
    let request = FindByProblemIdRequest::new("x/y".to_string()).set_size(5);
    assert_eq!(
        "http://127.0.0.1:1234/solutions/problems/x%2Fy?size=5",
        client.solutions().find_by_problem_id_url(&request).unwrap()
    );
}

#[test]
fn identifier_that_cannot_be_a_segment_is_refused() {
    let users = Client::new(LOCAL).unwrap().users();
    assert_eq!(Err(Error::InvalidUrl), users.find_by_id_url(""));
    assert_eq!(Err(Error::InvalidUrl), users.find_by_id_url("."));
    assert_eq!(Err(Error::InvalidUrl), users.find_by_id_url(".."));
    assert_eq!("http://127.0.0.1:1234/users/...", users.find_by_id_url("...").unwrap());
}

#[test]
fn status_is_classified() {
    assert_eq!(Err(Error::NotFound), check_status(404, true));
    assert_eq!(Err(Error::UnexpectedStatus(404)), check_status(404, false));
    assert_eq!(Err(Error::UnexpectedStatus(500)), check_status(500, true));
    assert_eq!(Err(Error::UnexpectedStatus(301)), check_status(301, false));
    assert_eq!(Err(Error::UnexpectedStatus(199)), check_status(199, false));
    assert_eq!(Ok(()), check_status(204, true));
    assert_eq!(Ok(()), check_status(299, false));
    assert_eq!(Err(Error::UnexpectedStatus(300)), check_status(300, false));
}

#[test]
fn decimal_forms() {
    assert_eq!("0", decimal(0));
    assert_eq!("10", decimal(10));
    assert_eq!("3491131", decimal(3491131));
    assert_eq!("18446744073709551615", decimal(u64::MAX));
}

#[test]
fn setters_keep_the_other_value() {
    let r = FindAllUsers::new().set_page(3);
    assert_eq!(Some(3), r.page);
    assert_eq!(None, r.size);
    let r = r.set_size(9);
    assert_eq!(Some(3), r.page);
    assert_eq!(Some(9), r.size);
    let p = FindByProblemIdRequest::new("1".to_string()).set_size(2).set_page(1);
    assert_eq!("1", p.problem_id);
    assert_eq!(Some(1), p.page);
    assert_eq!(Some(2), p.size);
}
