//! The record that the user agreed to the documents.

use vstd::prelude::*;
use vstd::utf8::encode_utf8;

use crate::digest;
use crate::json;
use crate::json::{Json, JsonView};
use crate::text;

verus! {

/// The record of an agreement: which documents, in which version, with which
/// version of the software, and when.
pub open spec fn record_of(
    document_version: Seq<char>,
    software_version: Seq<char>,
    accepted_at_unix: u64,
    user_agreement: Seq<char>,
    privacy_policy: Seq<char>,
) -> JsonView {
    JsonView::Object(
        seq![
            ("accepted"@, JsonView::Bool(true)),
            ("document_version"@, JsonView::Text(document_version)),
            ("software_version"@, JsonView::Text(software_version)),
            ("accepted_at_unix"@, JsonView::Number(Some(accepted_at_unix))),
            (
                "user_agreement_sha256"@,
                JsonView::Text(digest::hex_digest(encode_utf8(user_agreement))),
            ),
            (
                "privacy_policy_sha256"@,
                JsonView::Text(digest::hex_digest(encode_utf8(privacy_policy))),
            ),
            ("source"@, JsonView::Text("installer"@)),
        ],
    )
}

/// `record_of`, executable.
pub fn legal_acceptance_record(
    document_version: &str,
    software_version: &str,
    accepted_at_unix: u64,
    user_agreement: &str,
    privacy_policy: &str,
) -> (r: Json)
    ensures
        r@ == record_of(
            document_version@,
            software_version@,
            accepted_at_unix,
            user_agreement@,
            privacy_policy@,
        ),
{
    let mut fields: Vec<(String, Json)> = Vec::new();
    fields.push(("accepted".to_owned(), Json::Bool(true)));
    fields.push(("document_version".to_owned(), Json::Text(document_version.to_owned())));
    fields.push(("software_version".to_owned(), Json::Text(software_version.to_owned())));
    fields.push(("accepted_at_unix".to_owned(), Json::Number(Some(accepted_at_unix))));
    fields.push(
        ("user_agreement_sha256".to_owned(), Json::Text(digest::sha256_text(user_agreement))),
    );
    fields.push(
        ("privacy_policy_sha256".to_owned(), Json::Text(digest::sha256_text(privacy_policy))),
    );
    fields.push(("source".to_owned(), Json::Text("installer".to_owned())));
    let r = Json::Object(fields);
    reveal_with_fuel(Json::view, 2);
    assert(r@->Object_0 =~= record_of(
        document_version@,
        software_version@,
        accepted_at_unix,
        user_agreement@,
        privacy_policy@,
    )->Object_0);
    r
}

/// The record to keep of an agreement; none without a version of the documents.
pub fn write_legal_acceptance(
    document_version: &str,
    software_version: &str,
    accepted_at_unix: u64,
    user_agreement: &str,
    privacy_policy: &str,
) -> (r: Result<Json, String>)
    ensures
        r is Err <==> text::blank(document_version@),
        r matches Ok(record) ==> record@ == record_of(
            document_version@,
            software_version@,
            accepted_at_unix,
            user_agreement@,
            privacy_policy@,
        ),
        r matches Err(message) ==> message@ == "legal document version is empty"@,
{
    if text::is_blank(document_version) {
        return Err("legal document version is empty".to_owned());
    }
    Ok(
        legal_acceptance_record(
            document_version,
            software_version,
            accepted_at_unix,
            user_agreement,
            privacy_policy,
        ),
    )
}

/// The record of an agreement says that both documents were accepted, in which
/// version and when, and names each by its own digest.
pub proof fn agreement_is_recorded(
    document_version: Seq<char>,
    software_version: Seq<char>,
    accepted_at_unix: u64,
    user_agreement: Seq<char>,
    privacy_policy: Seq<char>,
)
    ensures
        ({
            let record = record_of(
                document_version,
                software_version,
                accepted_at_unix,
                user_agreement,
                privacy_policy,
            );
            &&& record.flag("accepted"@)
            &&& record.text_field("document_version"@) == Some(document_version)
            &&& record.text_field("software_version"@) == Some(software_version)
            &&& record.count("accepted_at_unix"@) == accepted_at_unix
            &&& record.text_field("user_agreement_sha256"@) == Some(
                digest::hex_digest(encode_utf8(user_agreement)),
            )
            &&& record.text_field("privacy_policy_sha256"@) == Some(
                digest::hex_digest(encode_utf8(privacy_policy)),
            )
            &&& record.text_field("source"@) == Some("installer"@)
        }),
{
    reveal_strlit("accepted");
    reveal_strlit("document_version");
    reveal_strlit("software_version");
    reveal_strlit("accepted_at_unix");
    reveal_strlit("user_agreement_sha256");
    reveal_strlit("privacy_policy_sha256");
    reveal_strlit("source");
    let fields = record_of(
        document_version,
        software_version,
        accepted_at_unix,
        user_agreement,
        privacy_policy,
    )->Object_0;
    assert("accepted"@.len() == 8);
    assert("document_version"@.len() == 16 && "document_version"@[0] == 'd');
    assert("software_version"@.len() == 16 && "software_version"@[0] == 's');
    assert("accepted_at_unix"@.len() == 16 && "accepted_at_unix"@[0] == 'a');
    assert("user_agreement_sha256"@.len() == 21 && "user_agreement_sha256"@[0] == 'u');
    assert("privacy_policy_sha256"@.len() == 21 && "privacy_policy_sha256"@[0] == 'p');
    assert("source"@.len() == 6);
    let f1 = fields.subrange(1, fields.len() as int);
    let f2 = f1.subrange(1, f1.len() as int);
    let f3 = f2.subrange(1, f2.len() as int);
    let f4 = f3.subrange(1, f3.len() as int);
    let f5 = f4.subrange(1, f4.len() as int);
    let f6 = f5.subrange(1, f5.len() as int);
    assert(f1[0] == fields[1]);
    assert(f2[0] == fields[2]);
    assert(f3[0] == fields[3]);
    assert(f4[0] == fields[4]);
    assert(f5[0] == fields[5]);
    assert(f6[0] == fields[6]);
    reveal_with_fuel(json::lookup, 8);
}

} // verus!
