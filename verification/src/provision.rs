//! Provisioning of tenant sites: the names, ports, configuration files and
//! service units a tenant gets.
use vstd::prelude::*;
use crate::crypto::{utf8, utf8_bytes};
use crate::labels::Customization;
use crate::snapshots::{join, join_path};
use crate::text::{
    ascii_lower, decimal, is_ascii_text, lemma_replace_char, lowercase_of, push_decimal, push_str, replace_all, replace_str, to_lowercase_string,
    to_owned_string, has_prefix, lacks_char, occurs_at,
};

verus! {

broadcast use vstd::string::group_string_axioms;

/// Why provisioning failed.
#[derive(Debug)]
pub enum ProvisionError {
    DatabaseError(String),
    CompilationFailed(String),
    DeploymentFailed(String),
    FileError(String),
    ConfigError(String),
}

/// Where tenants are deployed and how they reach the database.
pub struct ProvisionConfig {
    pub deploy_root: String,
    pub template_path: String,
    pub binary_name: String,
    pub surrealdb_host: String,
    pub surrealdb_port: u16,
}

impl Default for ProvisionConfig {
    /// Tenants under `/opt/lillpepe/tenants`, the template in `./template`,
    /// the shared binary `tenant_app`, the database on `127.0.0.1:8000`.
    fn default() -> (res: ProvisionConfig)
        ensures
            res.deploy_root@ == "/opt/lillpepe/tenants"@,
            res.template_path@ == "./template"@,
            res.binary_name@ == "tenant_app"@,
            res.surrealdb_host@ == "127.0.0.1"@,
            res.surrealdb_port == 8000,
    {
        ProvisionConfig {
            deploy_root: to_owned_string("/opt/lillpepe/tenants"),
            template_path: to_owned_string("./template"),
            binary_name: to_owned_string("tenant_app"),
            surrealdb_host: to_owned_string("127.0.0.1"),
            surrealdb_port: 8000,
        }
    }
}

/// The identifier form of a domain: dots and hyphens become underscores,
/// then the text is lower-cased.
pub open spec fn namespace_of(domain: Seq<char>) -> Seq<char> {
    lowercase_of(replace_all(replace_all(domain, "."@, "_"@), "-"@, "_"@))
}

/// Turn a domain into an identifier (see `namespace_of`).
/// For a domain of ASCII text the identifier holds neither `.` nor `-`.
pub fn sanitize_namespace(domain: &str) -> (res: String)
    ensures
        res@ == namespace_of(domain@),
        is_ascii_text(domain@) ==> forall|i: int| 0 <= i < res@.len() ==> #[trigger] res@[i] != '.' && res@[i] != '-',
{
    proof {
        reveal_strlit(".");
        reveal_strlit("-");
        reveal_strlit("_");
        assert("."@ =~= seq!['.']);
        assert("-"@ =~= seq!['-']);
        assert("_"@ =~= seq!['_']);
    }
    let a = replace_str(domain, ".", "_");
    proof {
        lemma_replace_char(domain@, '.', '_');
    }
    let b = replace_str(a.as_str(), "-", "_");
    proof {
        lemma_replace_char(a@, '-', '_');
        if is_ascii_text(domain@) {
            assert forall|i: int| 0 <= i < b@.len() implies (#[trigger] b@[i] as u32) < 128 && b@[i] != '.' && b@[i] != '-' by {
                assert(a@[i] == (if domain@[i] == '.' { '_' } else { domain@[i] }));
                assert((domain@[i] as u32) < 128);
            }
        }
    }
    let res = to_lowercase_string(b.as_str());
    proof {
        if is_ascii_text(domain@) {
            assert forall|i: int| 0 <= i < res@.len() implies #[trigger] res@[i] != '.' && res@[i] != '-' by {
                assert(res@[i] == ascii_lower(b@[i]));
                assert(b@[i] != '.' && b@[i] != '-');
            }
        }
    }
    res
}

/// The database namespace of a tenant: `tenant_<identifier>`.
pub fn tenant_namespace(domain: &str) -> (res: String)
    ensures
        res@ == "tenant_"@ + namespace_of(domain@),
{
    let ns = sanitize_namespace(domain);
    let mut s = to_owned_string("tenant_");
    push_str(&mut s, ns.as_str());
    s
}

/// The service unit name of a tenant: `lillpepe-<identifier>`.
pub fn tenant_service_name(domain: &str) -> (res: String)
    ensures
        res@ == "lillpepe-"@ + namespace_of(domain@),
{
    let ns = sanitize_namespace(domain);
    let mut s = to_owned_string("lillpepe-");
    push_str(&mut s, ns.as_str());
    s
}

/// The port a tenant is assigned from a hash value: `9000 + hash % 1000`.
pub fn port_from_hash(hash: u64) -> (res: u16)
    ensures
        res == 9000 + hash % 1000,
        9000 <= res <= 9999,
{
    9000 + (hash % 1000) as u16
}

/// What std's `DefaultHasher::new()` gives after hashing a string (`Hash`
/// for `str`: its UTF-8 bytes, then `0xff`). Every `DefaultHasher` made by
/// `new` starts from the same state, so within one build this is a
/// function of the string alone.
pub uninterp spec fn std_default_hash(s: Seq<char>) -> u64;

/// `DefaultHasher::new()`, `str::hash`, `Hasher::finish` of std.
#[verifier::external_body]
fn default_hash_of(s: &str) -> (res: u64)
    ensures
        res == std_default_hash(s@),
{
    let mut hasher = std::collections::hash_map::DefaultHasher::new();
    std::hash::Hash::hash(s, &mut hasher);
    std::hash::Hasher::finish(&hasher)
}

/// The port of a dedicated-host tenant, from the hash of its domain:
/// `9000 + hash % 1000`.
pub fn get_available_port(domain: &str) -> (res: Result<u16, ProvisionError>)
    ensures
        res matches Ok(p) && p == 9000 + std_default_hash(domain@) % 1000 && 9000 <= p <= 9999,
{
    Ok(port_from_hash(default_hash_of(domain)))
}

/// The theme colours of a tenant.
pub struct TenantColors {
    pub primary: String,
    pub secondary: String,
    pub accent: String,
    pub background: String,
    pub text: String,
}

/// The generated stylesheet of a tenant.
pub open spec fn custom_css(domain: Seq<char>, c: TenantColors) -> Seq<char> {
    "/* Auto-generated custom CSS for "@ + domain + " */\n:root {\n    --primary-color: "@ + c.primary@
        + ";\n    --secondary-color: "@ + c.secondary@ + ";\n    --accent-color: "@ + c.accent@
        + ";\n    --background-color: "@ + c.background@ + ";\n    --text-color: "@ + c.text@
        + ";\n}\n\nbody {\n    background-color: var(--background-color);\n    color: var(--text-color);\n}\n\n.btn-primary {\n    background-color: var(--primary-color);\n}\n\n.btn-secondary {\n    background-color: var(--secondary-color);\n}\n\na {\n    color: var(--accent-color);\n}\n"@
}

/// The stylesheet that sets a tenant's colours.
pub fn generate_custom_css(domain: &str, colors: &TenantColors) -> (res: String)
    ensures
        res@ == custom_css(domain@, *colors),
{
    let mut s = to_owned_string("/* Auto-generated custom CSS for ");
    push_str(&mut s, domain);
    push_str(&mut s, " */\n:root {\n    --primary-color: ");
    push_str(&mut s, colors.primary.as_str());
    push_str(&mut s, ";\n    --secondary-color: ");
    push_str(&mut s, colors.secondary.as_str());
    push_str(&mut s, ";\n    --accent-color: ");
    push_str(&mut s, colors.accent.as_str());
    push_str(&mut s, ";\n    --background-color: ");
    push_str(&mut s, colors.background.as_str());
    push_str(&mut s, ";\n    --text-color: ");
    push_str(&mut s, colors.text.as_str());
    push_str(
        &mut s,
        ";\n}\n\nbody {\n    background-color: var(--background-color);\n    color: var(--text-color);\n}\n\n.btn-primary {\n    background-color: var(--primary-color);\n}\n\n.btn-secondary {\n    background-color: var(--secondary-color);\n}\n\na {\n    color: var(--accent-color);\n}\n",
    );
    s
}

/// The service unit of a tenant.
pub open spec fn systemd_unit(domain: Seq<char>, tenant_dir: Seq<char>, binary_path: Seq<char>) -> Seq<char> {
    "[Unit]\nDescription=Lillpepe White Label - "@ + domain
        + "\nAfter=network.target surrealdb.service\n\n[Service]\nType=simple\nUser=lillpepe\nWorkingDirectory="@
        + tenant_dir + "\nEnvironment=\"TENANT_CONFIG="@ + tenant_dir
        + "/config/tenant.toml\"\nEnvironment=\"RUST_LOG=info\"\nExecStart="@ + binary_path + " --config "@
        + tenant_dir
        + "/config/tenant.toml\nRestart=always\nRestartSec=10\n\n[Install]\nWantedBy=multi-user.target\n"@
}

/// The service unit that runs a tenant from its directory with the shared
/// binary.
pub fn systemd_unit_text(domain: &str, tenant_dir: &str, binary_path: &str) -> (res: String)
    ensures
        res@ == systemd_unit(domain@, tenant_dir@, binary_path@),
{
    let mut s = to_owned_string("[Unit]\nDescription=Lillpepe White Label - ");
    push_str(&mut s, domain);
    push_str(&mut s, "\nAfter=network.target surrealdb.service\n\n[Service]\nType=simple\nUser=lillpepe\nWorkingDirectory=");
    push_str(&mut s, tenant_dir);
    push_str(&mut s, "\nEnvironment=\"TENANT_CONFIG=");
    push_str(&mut s, tenant_dir);
    push_str(&mut s, "/config/tenant.toml\"\nEnvironment=\"RUST_LOG=info\"\nExecStart=");
    push_str(&mut s, binary_path);
    push_str(&mut s, " --config ");
    push_str(&mut s, tenant_dir);
    push_str(&mut s, "/config/tenant.toml\nRestart=always\nRestartSec=10\n\n[Install]\nWantedBy=multi-user.target\n");
    s
}

/// The path of a service unit file: `/etc/systemd/system/<name>.service`.
pub fn service_unit_path(service_name: &str) -> (res: String)
    ensures
        res@ == "/etc/systemd/system/"@ + service_name@ + ".service"@,
{
    let mut s = to_owned_string("/etc/systemd/system/");
    push_str(&mut s, service_name);
    push_str(&mut s, ".service");
    s
}

/// The database address handed to the database client: `<host>:<port>`.
pub fn database_address(host: &str, port: u16) -> (res: String)
    ensures
        res@ == host@ + ":"@ + decimal(port as nat),
{
    let mut s = to_owned_string(host);
    push_str(&mut s, ":");
    push_decimal(&mut s, port as u64);
    s
}

// ---------------------------------------------------------------------------
// Shared-host tenants
// ---------------------------------------------------------------------------

/// The djb2 hash of a byte string, in 32-bit wrapping arithmetic: start at
/// 5381, then `h * 33 + byte` for every byte.
pub open spec fn djb2(bytes: Seq<u8>) -> u32
    decreases bytes.len(),
{
    if bytes.len() == 0 {
        5381
    } else {
        (((djb2(bytes.drop_last()) as int) * 33 + (bytes.last() as int)) % 0x1_0000_0000) as u32
    }
}

/// The djb2 hash of the UTF-8 bytes of `s`.
pub fn djb2_hash(s: &str) -> (res: u32)
    ensures
        res == djb2(utf8(s@)),
{
    let bytes = utf8_bytes(s);
    let mut h: u32 = 5381;
    let mut i: usize = 0;
    assert(bytes@.take(0) =~= Seq::<u8>::empty());
    while i < bytes.len()
        invariant
            i <= bytes@.len(),
            h == djb2(bytes@.take(i as int)),
        decreases bytes@.len() - i,
    {
        let b = bytes[i];
        let shifted = h << 5u32;
        assert((shifted as int) == ((h as int) * 32) % 0x1_0000_0000) by (bit_vector)
            requires
                shifted == h << 5u32,
        ;
        let h2 = shifted.wrapping_add(h);
        let h3 = h2.wrapping_add(b as u32);
        assert((h3 as int) == ((h as int) * 33 + (b as int)) % 0x1_0000_0000) by {
            assert((h2 as int) == ((shifted as int) + (h as int)) % 0x1_0000_0000);
            assert((h3 as int) == ((h2 as int) + (b as int)) % 0x1_0000_0000);
            assert(((h as int) * 32) % 0x1_0000_0000 + (h as int) < 2 * 0x1_0000_0000);
        }
        h = h3;
        assert(bytes@.take(i + 1).drop_last() =~= bytes@.take(i as int));
        i += 1;
    }
    assert(bytes@.take(bytes@.len() as int) =~= bytes@);
    h
}

/// The port of a shared-host tenant: `10000 + (hash as u16) % 10000`.
pub open spec fn tenant_port(domain: Seq<char>) -> int {
    10000 + ((djb2(utf8(domain)) as int) % 0x1_0000) % 10000
}

/// Map a domain to a port in `10000..=19999`, deterministically.
pub fn port_for(domain: &str) -> (res: u16)
    ensures
        res == tenant_port(domain@),
        10000 <= res <= 19999,
{
    let h = djb2_hash(domain);
    let base: u16 = 10_000;
    let span: u16 = 10_000;
    let low = (h % 0x1_0000) as u16;
    base + low % span
}

/// The root directory of a shared-host tenant: `/srv/lillpepe/tenants/<domain>`.
pub fn tenant_root(domain: &str) -> (res: String)
    ensures
        res@ == "/srv/lillpepe/tenants/"@ + domain@,
{
    let mut s = to_owned_string("/srv/lillpepe/tenants/");
    push_str(&mut s, domain);
    s
}

/// The database namespace of a shared-host tenant: the domain with `.`
/// replaced by `_`.
pub fn shared_namespace(domain: &str) -> (res: String)
    ensures
        res@ == replace_all(domain@, "."@, "_"@),
{
    proof {
        reveal_strlit(".");
    }
    replace_str(domain, ".", "_")
}

/// The environment file of a shared-host tenant.
pub open spec fn tenant_env(domain: Seq<char>, root: Seq<char>, port: nat, ns: Seq<char>) -> Seq<char> {
    "TENANT_ID="@ + domain + "\nDOMAIN="@ + domain + "\nHOST=127.0.0.1\nPORT="@ + decimal(port)
        + "\nSURREAL_URL=http://127.0.0.1:8000\nSURREAL_NS="@ + ns + "\nSURREAL_DB=site\nLOG_DIR="@ + root
        + "/logs\nDATA_DIR="@ + root + "/data\n"@
}

/// Write the environment file of a shared-host tenant.
pub fn tenant_env_text(domain: &str, root: &str, port: u16, ns: &str) -> (res: String)
    ensures
        res@ == tenant_env(domain@, root@, port as nat, ns@),
{
    let mut s = to_owned_string("TENANT_ID=");
    push_str(&mut s, domain);
    push_str(&mut s, "\nDOMAIN=");
    push_str(&mut s, domain);
    push_str(&mut s, "\nHOST=127.0.0.1\nPORT=");
    push_decimal(&mut s, port as u64);
    push_str(&mut s, "\nSURREAL_URL=http://127.0.0.1:8000\nSURREAL_NS=");
    push_str(&mut s, ns);
    push_str(&mut s, "\nSURREAL_DB=site\nLOG_DIR=");
    push_str(&mut s, root);
    push_str(&mut s, "/logs\nDATA_DIR=");
    push_str(&mut s, root);
    push_str(&mut s, "/data\n");
    s
}

/// The initial configuration of a shared-host tenant.
pub open spec fn tenant_config(domain: Seq<char>, ns: Seq<char>, root: Seq<char>) -> Seq<char> {
    "[tenant]\nid = \""@ + domain + "\"\nname = \""@ + domain + "\"\ndomain = \""@ + domain
        + "\"\nplan = \"shared\"\nenabled = true\n\n[branding]\ntitle = \""@ + domain
        + "\"\ntagline = \"\"\nprimary = \"#3498db\"\nsecondary = \"#2ecc71\"\nbackground = \"#ffffff\"\ntext_color = \"#222222\"\nlogo = \"img/logo.png\"\nfavicon = \"favicon.ico\"\n\n[db]\nnamespace = \""@
        + ns + "\"\ndatabase  = \"site\"\npath      = \""@ + root
        + "/data/surreal.db\"\n\n[features]\nenable_posts = true\nenable_products = false\nenable_services = false\nenable_gallery = true\nenable_payments = false\nenable_blog_rss = true\n"@
}

/// No section header (a line break followed by `[`) starts in `s`.
pub open spec fn no_section_start(s: Seq<char>) -> bool {
    forall|k: int| 0 <= k < s.len() - 1 ==> !(#[trigger] s[k] == '\n' && s[k + 1] == '[')
}

proof fn lemma_no_section_start_concat(a: Seq<char>, b: Seq<char>)
    requires
        no_section_start(a),
        no_section_start(b),
        a.len() > 0 ==> a.last() != '\n',
    ensures
        no_section_start(a + b),
{
    assert forall|k: int| 0 <= k < (a + b).len() - 1 implies !(#[trigger] (a + b)[k] == '\n' && (a + b)[k + 1] == '[') by {
        if k < a.len() - 1 {
            assert((a + b)[k] == a[k] && (a + b)[k + 1] == a[k + 1]);
        } else if k == a.len() - 1 {
            assert((a + b)[k] == a.last());
        } else {
            assert((a + b)[k] == b[k - a.len()] && (a + b)[k + 1] == b[k + 1 - a.len()]);
        }
    }
}

proof fn lemma_no_line_break(d: Seq<char>)
    requires
        lacks_char(d, '\n'),
    ensures
        no_section_start(d),
        d.len() > 0 ==> d.last() != '\n',
{
    assert forall|k: int| 0 <= k < d.len() - 1 implies !(#[trigger] d[k] == '\n' && d[k + 1] == '[') by {
        assert(d[k] != '\n');
    }
    if d.len() > 0 {
        assert(d[d.len() - 1] != '\n');
    }
}

/// A newly provisioned tenant starts enabled: for a domain without line
/// breaks, its configuration begins with the `[tenant]` section and holds
/// the line `enabled = true` before any other section header.
pub proof fn law_new_tenant_is_enabled(domain: Seq<char>, ns: Seq<char>, root: Seq<char>)
    requires
        lacks_char(domain, '\n'),
    ensures
        has_prefix(tenant_config(domain, ns, root), "[tenant]\n"@),
        exists|j: int|
            occurs_at(tenant_config(domain, ns, root), j, "\nenabled = true\n"@) && no_section_start(
                #[trigger] tenant_config(domain, ns, root).take(j + 1),
            ),
{
    reveal_strlit("[tenant]\n");
    reveal_strlit("[tenant]\nid = \"");
    reveal_strlit("\"\nname = \"");
    reveal_strlit("\"\ndomain = \"");
    reveal_strlit("\"\nplan = \"shared\"\nenabled = true\n\n[branding]\ntitle = \"");
    reveal_strlit("\nenabled = true\n");
    let c = tenant_config(domain, ns, root);
    let l1 = "[tenant]\nid = \""@;
    let l2 = "\"\nname = \""@;
    let l3 = "\"\ndomain = \""@;
    let l4 = seq!['"', '\n', 'p', 'l', 'a', 'n', ' ', '=', ' ', '"', 's', 'h', 'a', 'r', 'e', 'd', '"'];
    let line = "\nenabled = true\n"@;
    let rest_lit = "\n[branding]\ntitle = \""@;
    assert("\"\nplan = \"shared\"\nenabled = true\n\n[branding]\ntitle = \""@ =~= l4 + line + rest_lit) by {
        reveal_strlit("\n[branding]\ntitle = \"");
    }
    let p = l1 + domain + l2 + domain + l3 + domain + l4;
    let tail = c.skip((p.len() + line.len()) as int);
    assert(c =~= p + line + tail);
    assert(c.take(9) =~= "[tenant]\n"@);
    lemma_no_line_break(domain);
    lemma_no_section_start_concat(l1, domain);
    lemma_no_section_start_concat(l1 + domain, l2);
    lemma_no_section_start_concat(l1 + domain + l2, domain);
    lemma_no_section_start_concat(l1 + domain + l2 + domain, l3);
    lemma_no_section_start_concat(l1 + domain + l2 + domain + l3, domain);
    lemma_no_section_start_concat(l1 + domain + l2 + domain + l3 + domain, l4);
    lemma_no_section_start_concat(p, seq!['\n']);
    let j = p.len() as int;
    assert(c.take(j + 1) =~= p + seq!['\n']);
    assert(c.subrange(j, j + line.len()) =~= line);
    assert(occurs_at(c, j, line));
}

/// Write the initial configuration of a shared-host tenant.
pub fn tenant_config_text(domain: &str, ns: &str, root: &str) -> (res: String)
    ensures
        res@ == tenant_config(domain@, ns@, root@),
{
    let mut s = to_owned_string("[tenant]\nid = \"");
    push_str(&mut s, domain);
    push_str(&mut s, "\"\nname = \"");
    push_str(&mut s, domain);
    push_str(&mut s, "\"\ndomain = \"");
    push_str(&mut s, domain);
    push_str(&mut s, "\"\nplan = \"shared\"\nenabled = true\n\n[branding]\ntitle = \"");
    push_str(&mut s, domain);
    push_str(
        &mut s,
        "\"\ntagline = \"\"\nprimary = \"#3498db\"\nsecondary = \"#2ecc71\"\nbackground = \"#ffffff\"\ntext_color = \"#222222\"\nlogo = \"img/logo.png\"\nfavicon = \"favicon.ico\"\n\n[db]\nnamespace = \"",
    );
    push_str(&mut s, ns);
    push_str(&mut s, "\"\ndatabase  = \"site\"\npath      = \"");
    push_str(&mut s, root);
    push_str(
        &mut s,
        "/data/surreal.db\"\n\n[features]\nenable_posts = true\nenable_products = false\nenable_services = false\nenable_gallery = true\nenable_payments = false\nenable_blog_rss = true\n",
    );
    s
}

/// The subdirectories created for a shared-host tenant, relative to its
/// root (the root itself is the empty entry).
pub fn tenant_subdirs() -> (res: Vec<&'static str>)
    ensures
        res@.len() == 8,
        res@[0]@ == ""@ && res@[1]@ == "/static"@ && res@[2]@ == "/media"@ && res@[3]@ == "/logs"@,
        res@[4]@ == "/data"@ && res@[5]@ == "/cache"@ && res@[6]@ == "/backups"@ && res@[7]@ == "/tmp"@,
{
    let mut v: Vec<&'static str> = Vec::new();
    v.push("");
    v.push("/static");
    v.push("/media");
    v.push("/logs");
    v.push("/data");
    v.push("/cache");
    v.push("/backups");
    v.push("/tmp");
    v
}

/// The licence file a shared-host tenant starts with, until a licence is
/// bound: `{"status":"pending"}`.
pub fn license_placeholder() -> (res: &'static str)
    ensures
        res@ == "{\"status\":\"pending\"}"@,
{
    "{\"status\":\"pending\"}"
}

/// The summary line of a provisioning run.
pub fn provisioned_message(domain: &str, root: &str, port: u16, ns: &str) -> (res: String)
    ensures
        res@ == "✅ provisioned "@ + domain@ + " at "@ + root@ + " (PORT "@ + decimal(port as nat) + ", NS "@ + ns@ + ")"@,
{
    let mut s = to_owned_string("✅ provisioned ");
    push_str(&mut s, domain);
    push_str(&mut s, " at ");
    push_str(&mut s, root);
    push_str(&mut s, " (PORT ");
    push_decimal(&mut s, port as u64);
    push_str(&mut s, ", NS ");
    push_str(&mut s, ns);
    push_str(&mut s, ")");
    s
}

// ---------------------------------------------------------------------------
// Dedicated-host tenants: configuration and deployment
// ---------------------------------------------------------------------------

/// The configuration written for a provisioned tenant.
pub struct TenantConfig {
    pub domain: String,
    pub white_label_id: String,
    pub database_namespace: String,
    pub database_name: String,
    pub port: u16,
    pub colors: TenantColors,
}

/// The theme colours of a site's customisation.
pub fn colors_of(c: &Customization) -> (res: TenantColors)
    ensures
        res.primary@ == c.primary_color@,
        res.secondary@ == c.secondary_color@,
        res.accent@ == c.accent_color@,
        res.background@ == c.background_color@,
        res.text@ == c.text_color@,
{
    TenantColors {
        primary: to_owned_string(c.primary_color.as_str()),
        secondary: to_owned_string(c.secondary_color.as_str()),
        accent: to_owned_string(c.accent_color.as_str()),
        background: to_owned_string(c.background_color.as_str()),
        text: to_owned_string(c.text_color.as_str()),
    }
}

/// The configuration of a tenant served on `port`: its namespace is
/// `tenant_<identifier>`, its database `main`.
pub fn tenant_config_for(domain: &str, white_label_id: &str, colors: TenantColors, port: u16) -> (res: TenantConfig)
    ensures
        res.domain@ == domain@,
        res.white_label_id@ == white_label_id@,
        res.database_namespace@ == "tenant_"@ + namespace_of(domain@),
        res.database_name@ == "main"@,
        res.port == port,
        res.colors == colors,
{
    TenantConfig {
        domain: to_owned_string(domain),
        white_label_id: to_owned_string(white_label_id),
        database_namespace: tenant_namespace(domain),
        database_name: to_owned_string("main"),
        port,
        colors,
    }
}

/// The directory of a tenant: `<deploy_root>/<domain>`.
pub fn tenant_dir(config: &ProvisionConfig, domain: &str) -> (res: String)
    ensures
        res@ == join_path(config.deploy_root@, domain@),
{
    join(config.deploy_root.as_str(), domain)
}

/// The subdirectories created in a tenant's directory.
pub fn tenant_dir_layout() -> (res: Vec<&'static str>)
    ensures
        res@.len() == 4,
        res@[0]@ == "static"@ && res@[1]@ == "media"@ && res@[2]@ == "config"@ && res@[3]@ == "logs"@,
{
    let mut v: Vec<&'static str> = Vec::new();
    v.push("static");
    v.push("media");
    v.push("config");
    v.push("logs");
    v
}

/// The shared tenant binary: `/opt/lillpepe/bin/<binary_name>`.
pub fn shared_binary_path(config: &ProvisionConfig) -> (res: String)
    ensures
        res@ == join_path("/opt/lillpepe/bin"@, config.binary_name@),
{
    join("/opt/lillpepe/bin", config.binary_name.as_str())
}

/// The statement that sets up a tenant's database.
pub open spec fn database_setup_sql() -> Seq<char> {
    "DEFINE NAMESPACE IF NOT EXISTS tenant; USE NS tenant; DEFINE DATABASE IF NOT EXISTS main;"@
}

/// The arguments of the database client that sets up a tenant's
/// namespace.
pub fn database_setup_args(config: &ProvisionConfig, namespace: &str) -> (res: Vec<String>)
    ensures
        res@.len() == 13,
        res@[0]@ == "sql"@,
        res@[1]@ == "--conn"@,
        res@[2]@ == config.surrealdb_host@ + ":"@ + decimal(config.surrealdb_port as nat),
        res@[3]@ == "--user"@,
        res@[4]@ == "root"@,
        res@[5]@ == "--pass"@,
        res@[6]@ == "root"@,
        res@[7]@ == "--ns"@,
        res@[8]@ == namespace@,
        res@[9]@ == "--db"@,
        res@[10]@ == "main"@,
        res@[11]@ == "--"@,
        res@[12]@ == database_setup_sql(),
{
    let mut v: Vec<String> = Vec::new();
    v.push(to_owned_string("sql"));
    v.push(to_owned_string("--conn"));
    v.push(database_address(config.surrealdb_host.as_str(), config.surrealdb_port));
    v.push(to_owned_string("--user"));
    v.push(to_owned_string("root"));
    v.push(to_owned_string("--pass"));
    v.push(to_owned_string("root"));
    v.push(to_owned_string("--ns"));
    v.push(to_owned_string(namespace));
    v.push(to_owned_string("--db"));
    v.push(to_owned_string("main"));
    v.push(to_owned_string("--"));
    let sql = to_owned_string("DEFINE NAMESPACE IF NOT EXISTS tenant; USE NS tenant; DEFINE DATABASE IF NOT EXISTS main;");
    v.push(sql);
    v
}

} // verus!
