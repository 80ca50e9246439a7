use sonai::{
    combine_corpus, remaining_pages, retry_decision, Devlog, Devlogs, PagintatedResponse,
    Pagination, Project, Projects, RetryStep,
};

#[test]
fn page_plan_lists_the_pages_after_the_first() {
    let p = Pagination { pages: 5, count: 99 };
    assert_eq!(remaining_pages(&p), vec![2u16, 3, 4, 5]);
    let p = Pagination { pages: 1, count: 10 };
    assert_eq!(remaining_pages(&p), Vec::<u16>::new());
    let p = Pagination { pages: 0, count: 0 };
    assert_eq!(remaining_pages(&p), Vec::<u16>::new());
}

#[test]
fn retry_backoff_doubles_and_gives_up() {
    assert_eq!(retry_decision(1, 3), RetryStep::Retry(500));
    assert_eq!(retry_decision(2, 3), RetryStep::Retry(1000));
    assert_eq!(retry_decision(3, 3), RetryStep::GiveUp);
    assert_eq!(retry_decision(5, 3), RetryStep::GiveUp);
    assert_eq!(retry_decision(3, 5), RetryStep::Retry(2000));
}

#[test]
fn corpus_is_devlogs_then_projects() {
    let devlogs = vec![
        Devlog { text: "first".to_string() },
        Devlog { text: "second".to_string() },
    ];
    let projects = vec![Project { description: "about".to_string() }];
    let corpus = combine_corpus(&devlogs, &projects);
    assert_eq!(corpus, vec!["first".to_string(), "second".to_string(), "about".to_string()]);
}

#[test]
fn responses_expose_their_pages() {
    let d = Devlogs {
        devlogs: vec![Devlog { text: "entry".to_string() }],
        pagination: Pagination { pages: 3, count: 42 },
    };
    assert_eq!(d.pagintation().pages, 3);
    assert_eq!(d.pagintation().count, 42);
    let items = d.page();
    assert_eq!(items.len(), 1);
    assert_eq!(items[0].text, "entry");

    let pr = Projects {
        projects: vec![Project { description: "desc".to_string() }],
        pagination: Pagination { pages: 1, count: 1 },
    };
    assert_eq!(pr.pagintation().pages, 1);
    let items = pr.page();
    assert_eq!(items[0].description, "desc");
}
