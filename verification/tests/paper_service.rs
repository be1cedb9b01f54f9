use nerdnuggets::dto::util_dto::ExtractProjectInfoRequest;
use nerdnuggets::paper_info::{into_project_info, paper_info_url, ExternalApiResponse, ExternalNerdNuggetsInfo, ExternalStrengthsLimitations};
use nerdnuggets::subscription::SubscriptionInfo;
use nerdnuggets::types::ArticleData;

#[test]
fn paper_requests_encode_the_stored_paper() {
    let url = paper_info_url(&ExtractProjectInfoRequest { s3_paper: "papers/a b&c.pdf".to_string() });
    assert_eq!(
        url,
        "https://www.nerdbunny.com/api/v1/papers/integrations/extract_nerdnuggets_info/?s3_paper=papers%2Fa%20b%26c.pdf"
    );
    let url = paper_info_url(&ExtractProjectInfoRequest { s3_paper: "Ünï-_.~€😀".to_string() });
    assert_eq!(
        url,
        "https://www.nerdbunny.com/api/v1/papers/integrations/extract_nerdnuggets_info/?s3_paper=%C3%9Cn%C3%AF-_.~%E2%82%AC%F0%9F%98%80"
    );
}

#[test]
fn paper_answers_become_project_information() {
    let external = ExternalApiResponse {
        status: "success".to_string(),
        data: ExternalNerdNuggetsInfo {
            title: "T".to_string(),
            description: "D".to_string(),
            research_objectives: vec!["o1".to_string()],
            methodology: "M".to_string(),
            expected_outcomes: "E".to_string(),
            strengths_potential_limitations: ExternalStrengthsLimitations {
                strengths: vec!["s".to_string()],
                limitations: vec!["l1".to_string(), "l2".to_string()],
            },
            commercial_applications: "C".to_string(),
            societal_benefit: "S".to_string(),
            risk_assessment: "R".to_string(),
            tags: vec!["ai".to_string()],
        },
    };
    let r = into_project_info(external);
    assert_eq!(r.status, "success");
    assert_eq!(r.data.title, "T");
    assert_eq!(r.data.research_objectives, vec!["o1"]);
    assert_eq!(r.data.strengths_potential_limitations.limitations, vec!["l1", "l2"]);
    assert_eq!(r.data.risk_assessment, "R");
    assert_eq!(r.data.tags, vec!["ai"]);
}

#[test]
fn small_records() {
    let s = SubscriptionInfo::new("https://push".to_string(), "key".to_string(), "auth".to_string());
    assert_eq!(s.endpoint, "https://push");
    let a = ArticleData::default();
    assert!(a._abstract.is_empty() && a.references.is_none());
}

#[test]
fn vectors_take_new_items_only() {
    use_push();
}

fn use_push() {
    use_trait(&mut vec![1, 2]);
}

fn use_trait(v: &mut Vec<i32>) {
    assert!(nerdnuggets::push::PushIfNotContains::push_if_not_contains(v, 3));
    assert!(!nerdnuggets::push::PushIfNotContains::push_if_not_contains(v, 1));
    assert_eq!(*v, vec![1, 2, 3]);
}
