use shepherd::fuzzy::fuzzy_sort_lambdas;
use shepherd::model::Lambda;

fn lambda(name: &str) -> Lambda {
    Lambda {
        name: name.to_string(),
        arn: format!("arn:aws:lambda:eu-west-1:123456789012:function:{}", name),
        runtime: "provided.al2".to_string(),
        memory: 128,
        timeout: 30,
    }
}

fn names(filtered: &Vec<(Vec<usize>, Lambda)>) -> Vec<String> {
    filtered.iter().map(|(_, l)| l.name.clone()).collect()
}

#[test]
fn query_fo_keeps_subsequence_matches_and_drops_bar() {
    let input = vec![lambda("foo"), lambda("bar"), lambda("foobar")];
    let query: Vec<char> = "fo".chars().collect();
    let filtered = fuzzy_sort_lambdas(&input, &query);
    let got = names(&filtered);
    assert_eq!(got.len(), 2);
    assert!(got.contains(&"foo".to_string()));
    assert!(got.contains(&"foobar".to_string()));
    assert!(!got.contains(&"bar".to_string()));
    assert_eq!(got, vec!["foo".to_string(), "foobar".to_string()]);
}

#[test]
fn empty_query_keeps_everything_in_input_order() {
    let input = vec![lambda("foo"), lambda("bar"), lambda("foobar")];
    let query: Vec<char> = Vec::new();
    let filtered = fuzzy_sort_lambdas(&input, &query);
    assert_eq!(
        names(&filtered),
        vec!["foo".to_string(), "bar".to_string(), "foobar".to_string()]
    );
    for (indices, _) in &filtered {
        assert!(indices.is_empty());
    }
}

#[test]
fn spaces_in_query_are_ignored() {
    let input = vec![lambda("foo"), lambda("bar")];
    let query: Vec<char> = " f o ".chars().collect();
    let filtered = fuzzy_sort_lambdas(&input, &query);
    assert_eq!(names(&filtered), vec!["foo".to_string()]);
}

#[test]
fn matched_indices_point_into_the_name() {
    let input = vec![lambda("axbycz")];
    let query: Vec<char> = "abc".chars().collect();
    let filtered = fuzzy_sort_lambdas(&input, &query);
    assert_eq!(filtered.len(), 1);
    assert_eq!(filtered[0].0, vec![0, 2, 4]);
}

#[test]
fn no_match_yields_empty_result() {
    let input = vec![lambda("alpha"), lambda("beta")];
    let query: Vec<char> = "zzz".chars().collect();
    let filtered = fuzzy_sort_lambdas(&input, &query);
    assert!(filtered.is_empty());
}
