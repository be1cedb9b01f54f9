//! The tags that label the metadata archived on Arweave.

use vstd::prelude::*;

verus! {

/// The tags as names and texts.
pub open spec fn tags_view(tags: Seq<(String, String)>) -> Seq<(Seq<char>, Seq<char>)> {
    tags.map_values(|t: (String, String)| (t.0@, t.1@))
}

fn tag(name: &str, value: &str) -> (t: (String, String))
    ensures
        t.0@ == name@,
        t.1@ == value@,
{
    (String::from_str(name), String::from_str(value))
}

/// The tags of an archived record: its content type (JSON), the application, the kind
/// of record and the time it was archived, followed by the record's own tags.
pub fn upload_tags(content_type: &str, timestamp: &str, additional: Option<Vec<(String, String)>>) -> (tags: Vec<(
    String,
    String,
)>)
    ensures
        tags_view(tags@) == seq![
            ("Content-Type"@, "application/json"@),
            ("App-Name"@, "NerdNuggets"@),
            ("Type"@, content_type@),
            ("Timestamp"@, timestamp@),
        ] + match additional {
            Some(a) => tags_view(a@),
            None => Seq::empty(),
        },
{
    let mut tags = vec![
        tag("Content-Type", "application/json"),
        tag("App-Name", "NerdNuggets"),
        tag("Type", content_type),
        tag("Timestamp", timestamp),
    ];
    let ghost base = tags@;
    match additional {
        Some(a) => {
            let mut a = a;
            let ghost added = a@;
            tags.append(&mut a);
            assert(tags_view(tags@) =~= tags_view(base) + tags_view(added));
        },
        None => {},
    }
    assert(tags_view(base) =~= seq![
        ("Content-Type"@, "application/json"@),
        ("App-Name"@, "NerdNuggets"@),
        ("Type"@, content_type@),
        ("Timestamp"@, timestamp@),
    ]);
    tags
}

/// The record's own tags of a new bounty.
pub fn bounty_creation_tags(bounty_id: &str, nerd_id: &str, user_id: &str) -> (tags: Vec<(String, String)>)
    ensures
        tags_view(tags@) == seq![("Bounty-Id"@, bounty_id@), ("Nerd-Id"@, nerd_id@), ("User-Id"@, user_id@)],
{
    let tags = vec![tag("Bounty-Id", bounty_id), tag("Nerd-Id", nerd_id), tag("User-Id", user_id)];
    assert(tags_view(tags@) =~= seq![("Bounty-Id"@, bounty_id@), ("Nerd-Id"@, nerd_id@), ("User-Id"@, user_id@)]);
    tags
}

/// The record's own tags of a submitted project.
pub fn project_submission_tags(project_id: &str, nerd_id: &str, user_id: &str) -> (tags: Vec<(String, String)>)
    ensures
        tags_view(tags@) == seq![("Project-Id"@, project_id@), ("Nerd-Id"@, nerd_id@), ("User-Id"@, user_id@)],
{
    let tags = vec![tag("Project-Id", project_id), tag("Nerd-Id", nerd_id), tag("User-Id", user_id)];
    assert(tags_view(tags@) =~= seq![("Project-Id"@, project_id@), ("Nerd-Id"@, nerd_id@), ("User-Id"@, user_id@)]);
    tags
}

/// The record's own tags of an updated milestone.
pub fn milestone_update_tags(milestone_id: &str, project_id: &str, nerd_id: &str) -> (tags: Vec<(String, String)>)
    ensures
        tags_view(tags@) == seq![
            ("Milestone-Id"@, milestone_id@),
            ("Project-Id"@, project_id@),
            ("Nerd-Id"@, nerd_id@),
        ],
{
    let tags = vec![tag("Milestone-Id", milestone_id), tag("Project-Id", project_id), tag("Nerd-Id", nerd_id)];
    assert(tags_view(tags@) =~= seq![
        ("Milestone-Id"@, milestone_id@),
        ("Project-Id"@, project_id@),
        ("Nerd-Id"@, nerd_id@),
    ]);
    tags
}

} // verus!
