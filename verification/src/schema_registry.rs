//! Registry of supported canonical CBOR schemas.
use vstd::prelude::*;

verus! {

/// Schema definition entry.
#[derive(Clone, Copy, Debug, PartialEq, Eq)]
pub struct SchemaDef {
    /// Schema identifier.
    pub id: &'static str,
    /// Schema version.
    pub version: u32,
    /// Schema kind.
    pub kind: &'static str,
}

/// List of canonical schemas supported by this crate.
///
/// Add new schema entries in semver order and keep identifiers stable.
pub fn schemas() -> (r: Vec<SchemaDef>)
    ensures
        r@.len() == 5,
        r@[0].id@ == "greentic.pack.describe@0.6.0"@,
        r@[1].id@ == "greentic.pack.qa@0.6.0"@,
        r@[2].id@ == "greentic.pack.validation@0.6.0"@,
        r@[3].id@ == "greentic.component.describe@0.6.0"@,
        r@[4].id@ == "greentic.component.qa@0.6.0"@,
        forall|i: int| 0 <= i < 5 ==> (#[trigger] r@[i]).version == 6,
        r@[0].kind@ == "pack"@ && r@[1].kind@ == "pack"@ && r@[2].kind@ == "pack"@,
        r@[3].kind@ == "component"@ && r@[4].kind@ == "component"@,
{
    let mut v: Vec<SchemaDef> = Vec::new();
    v.push(SchemaDef { id: "greentic.pack.describe@0.6.0", version: 6, kind: "pack" });
    v.push(SchemaDef { id: "greentic.pack.qa@0.6.0", version: 6, kind: "pack" });
    v.push(SchemaDef { id: "greentic.pack.validation@0.6.0", version: 6, kind: "pack" });
    v.push(SchemaDef { id: "greentic.component.describe@0.6.0", version: 6, kind: "component" });
    v.push(SchemaDef { id: "greentic.component.qa@0.6.0", version: 6, kind: "component" });
    v
}

} // verus!
