//! The droplet resource: the virtual-machine record the provider reports,
//! and the write-only request used to create one. The creation request's
//! wire body is serialized here and verified down to the exact text, so
//! that an unset optional field is entirely absent from the body rather
//! than present as null.

use vstd::prelude::*;
use crate::config::str_eq;
use crate::common::Links;
use crate::common::Meta;
use crate::common::Action;
use crate::common::Region;
use crate::common::Size;
use crate::json::member;
use crate::json::opt_bool_member;
use crate::json::opt_string_array_member;
use crate::json::opt_string_member;
use crate::json::quote_json;
use crate::json::quoted;
use crate::json::append_member;
use crate::json::append_opt_bool_member;
use crate::json::append_opt_string_array_member;
use crate::json::append_opt_string_member;

verus! {

/// A virtual machine. Nested resources may be absent depending on the
/// endpoint's expansion; absence is a first-class case.
#[derive(Clone, Debug)]
pub struct Droplet {
    pub id: u32,
    pub name: String,
    pub memory: u32,
    pub vcpus: u32,
    pub disk: u32,
    pub locked: bool,
    pub status: String,
    pub kernel: Option<Kernel>,
    pub created_at: String,
    pub features: Vec<String>,
    pub backup_ids: Vec<u32>,
    pub snapshot_ids: Vec<u32>,
    pub image: Option<Image>,
    pub size: Option<Size>,
    pub size_slug: String,
    pub networks: Option<Networks>,
    pub region: Option<Region>,
    pub tags: Vec<String>,
    pub volume_ids: Vec<String>,
    pub vpc_uuid: String,
}

/// The first public IPv4 address among a list of interfaces.
pub open spec fn first_public_v4(nets: Seq<NetworkV4>) -> Option<Seq<char>>
    decreases nets.len(),
{
    if nets.len() == 0 {
        None
    } else if nets[0].network_type@ == "public"@ {
        Some(nets[0].ip_address@)
    } else {
        first_public_v4(nets.drop_first())
    }
}

/// The droplet's public IPv4 address: the first interface marked public,
/// when the networks are present and hold one.
pub open spec fn spec_public_ipv4(d: Droplet) -> Option<Seq<char>> {
    match d.networks {
        Some(n) => first_public_v4(n.v4@),
        None => None,
    }
}

/// Finds the first interface marked public and returns its address.
fn find_public_v4(nets: &Vec<NetworkV4>) -> (r: Option<String>)
    ensures
        (r matches Some(ip) ==> first_public_v4(nets@) == Some(ip@)),
        (r is None ==> first_public_v4(nets@) is None),
{
    let n = nets.len();
    let mut i: usize = 0;
    proof {
        assert(nets@.subrange(0, n as int) =~= nets@);
    }
    while i < n
        invariant
            i <= n,
            n == nets@.len(),
            first_public_v4(nets@) == first_public_v4(nets@.subrange(i as int, n as int)),
        decreases n - i,
    {
        let item = &nets[i];
        if str_eq(item.network_type.as_str(), "public") {
            proof {
                assert(nets@.subrange(i as int, n as int)[0] == nets@[i as int]);
            }
            return Some(String::from_str(item.ip_address.as_str()));
        }
        proof {
            let ghost tail = nets@.subrange(i as int, n as int);
            assert(tail[0] == nets@[i as int]);
            assert(tail.drop_first() =~= nets@.subrange(i + 1 as int, n as int));
        }
        i = i + 1;
    }
    proof {
        assert(nets@.subrange(n as int, n as int) =~= Seq::<NetworkV4>::empty());
    }
    None
}

impl Droplet {
    /// The first public IPv4 address of the droplet, if any.
    pub fn public_ipv4(&self) -> (r: Option<String>)
        ensures
            (r matches Some(ip) ==> spec_public_ipv4(*self) == Some(ip@)),
            (r is None ==> spec_public_ipv4(*self) is None),
    {
        match &self.networks {
            Some(networks) => find_public_v4(&networks.v4),
            None => None,
        }
    }

    /// The slug of the droplet's region, if the region is embedded.
    pub fn region_slug(&self) -> (r: Option<String>)
        ensures
            (match self.region {
                Some(rg) => r matches Some(s) && s@ == rg.slug@,
                None => r is None,
            }),
    {
        match &self.region {
            Some(rg) => Some(String::from_str(rg.slug.as_str())),
            None => None,
        }
    }
}

/// The kernel a droplet runs.
#[derive(Clone, Debug)]
pub struct Kernel {
    pub id: u32,
    pub name: String,
    pub version: String,
}

/// An operating-system image.
#[derive(Clone, Debug)]
pub struct Image {
    pub id: u32,
    pub name: String,
    pub image_type: String,
    pub distribution: String,
    pub slug: String,
    pub public: bool,
    pub regions: Vec<String>,
    pub min_disk_size: u32,
    pub size_gigabytes: String,
    pub created_at: String,
    pub description: String,
    pub tags: Vec<String>,
    pub status: String,
    pub error_message: String,
}

/// The networks attached to a droplet.
#[derive(Clone, Debug)]
pub struct Networks {
    pub v4: Vec<NetworkV4>,
    pub v6: Vec<NetworkV6>,
}

/// An IPv4 network interface.
#[derive(Clone, Debug)]
pub struct NetworkV4 {
    pub ip_address: String,
    pub netmask: String,
    pub gateway: String,
    pub network_type: String,
}

/// An IPv6 network interface.
#[derive(Clone, Debug)]
pub struct NetworkV6 {
    pub ip_address: String,
    pub netmask: u32,
    pub gateway: String,
    pub network_type: String,
}

/// The write-only projection used to create a droplet: four required
/// fields, and optional fields each independently omittable from the wire
/// payload when unset.
#[derive(Clone, Debug)]
pub struct CreateDropletRequest {
    pub name: String,
    pub region: String,
    pub size: String,
    pub image: String,
    pub ssh_keys: Option<Vec<String>>,
    pub backups: Option<bool>,
    pub ipv6: Option<bool>,
    pub monitoring: Option<bool>,
    pub tags: Option<Vec<String>>,
    pub user_data: Option<String>,
    pub private_networking: Option<bool>,
    pub volumes: Option<Vec<String>>,
    pub vpc_uuid: Option<String>,
}

/// The exact wire body of a creation request: the four required members,
/// then one member per set optional field, in a fixed order.
pub open spec fn create_droplet_json(r: CreateDropletRequest) -> Seq<char> {
    seq!['{'] + member("name"@, quoted(r.name@)) + seq![','] + member("region"@, quoted(r.region@))
        + seq![','] + member("size"@, quoted(r.size@)) + seq![','] + member(
        "image"@,
        quoted(r.image@),
    ) + opt_string_array_member("ssh_keys"@, r.ssh_keys) + opt_bool_member("backups"@, r.backups)
        + opt_bool_member("ipv6"@, r.ipv6) + opt_bool_member("monitoring"@, r.monitoring)
        + opt_string_array_member("tags"@, r.tags) + opt_string_member("user_data"@, r.user_data)
        + opt_bool_member("private_networking"@, r.private_networking) + opt_string_array_member(
        "volumes"@,
        r.volumes,
    ) + opt_string_member("vpc_uuid"@, r.vpc_uuid) + seq!['}']
}

impl CreateDropletRequest {
    /// A creation request with only the required fields set; every
    /// optional field starts absent, so the serialized body omits it.
    pub fn new(name: String, region: String, size: String, image: String) -> (r:
        CreateDropletRequest)
        ensures
            r.name@ == name@,
            r.region@ == region@,
            r.size@ == size@,
            r.image@ == image@,
            r.ssh_keys is None,
            r.backups is None,
            r.ipv6 is None,
            r.monitoring is None,
            r.tags is None,
            r.user_data is None,
            r.private_networking is None,
            r.volumes is None,
            r.vpc_uuid is None,
    {
        CreateDropletRequest {
            name,
            region,
            size,
            image,
            ssh_keys: None,
            backups: None,
            ipv6: None,
            monitoring: None,
            tags: None,
            user_data: None,
            private_networking: None,
            volumes: None,
            vpc_uuid: None,
        }
    }

    /// The same request with the tag list applied: an empty list counts as
    /// unset and stays off the wire.
    pub fn with_tags(self, tags: Vec<String>) -> (r: CreateDropletRequest)
        ensures
            tags@.len() == 0 ==> r.tags is None,
            tags@.len() > 0 ==> (r.tags matches Some(t) && t.deep_view() == tags.deep_view()),
            r.name@ == self.name@,
            r.region@ == self.region@,
            r.size@ == self.size@,
            r.image@ == self.image@,
            r.ssh_keys == self.ssh_keys,
            r.backups == self.backups,
            r.ipv6 == self.ipv6,
            r.monitoring == self.monitoring,
            r.user_data == self.user_data,
            r.private_networking == self.private_networking,
            r.volumes == self.volumes,
            r.vpc_uuid == self.vpc_uuid,
    {
        if tags.len() == 0 {
            CreateDropletRequest { tags: None, ..self }
        } else {
            CreateDropletRequest { tags: Some(tags), ..self }
        }
    }

    /// Serializes the request as its exact JSON wire body.
    pub fn to_json(&self) -> (r: String)
        ensures
            r@ == create_droplet_json(*self),
    {
        let mut out = String::from_str("{");
        let name_v = quote_json(self.name.as_str());
        append_member(&mut out, "name", name_v.as_str());
        out.append(",");
        let region_v = quote_json(self.region.as_str());
        append_member(&mut out, "region", region_v.as_str());
        out.append(",");
        let size_v = quote_json(self.size.as_str());
        append_member(&mut out, "size", size_v.as_str());
        out.append(",");
        let image_v = quote_json(self.image.as_str());
        append_member(&mut out, "image", image_v.as_str());
        append_opt_string_array_member(&mut out, "ssh_keys", &self.ssh_keys);
        append_opt_bool_member(&mut out, "backups", &self.backups);
        append_opt_bool_member(&mut out, "ipv6", &self.ipv6);
        append_opt_bool_member(&mut out, "monitoring", &self.monitoring);
        append_opt_string_array_member(&mut out, "tags", &self.tags);
        append_opt_string_member(&mut out, "user_data", &self.user_data);
        append_opt_bool_member(&mut out, "private_networking", &self.private_networking);
        append_opt_string_array_member(&mut out, "volumes", &self.volumes);
        append_opt_string_member(&mut out, "vpc_uuid", &self.vpc_uuid);
        out.append("}");
        proof {
            reveal_strlit("{");
            reveal_strlit("}");
            reveal_strlit(",");
            assert(out@ =~= create_droplet_json(*self));
        }
        out
    }
}

/// A creation request holding only its required fields serializes to a
/// body with exactly the four required members and no optional key at all.
pub proof fn lemma_required_fields_only(r: CreateDropletRequest)
    requires
        r.ssh_keys is None,
        r.backups is None,
        r.ipv6 is None,
        r.monitoring is None,
        r.tags is None,
        r.user_data is None,
        r.private_networking is None,
        r.volumes is None,
        r.vpc_uuid is None,
    ensures
        create_droplet_json(r) == seq!['{'] + member("name"@, quoted(r.name@)) + seq![','] + member(
            "region"@,
            quoted(r.region@),
        ) + seq![','] + member("size"@, quoted(r.size@)) + seq![','] + member(
            "image"@,
            quoted(r.image@),
        ) + seq!['}'],
{
    assert(create_droplet_json(r) =~= seq!['{'] + member("name"@, quoted(r.name@)) + seq![',']
        + member("region"@, quoted(r.region@)) + seq![','] + member("size"@, quoted(r.size@))
        + seq![','] + member("image"@, quoted(r.image@)) + seq!['}']);
}

/// The envelope of the droplet-list response.
#[derive(Clone, Debug)]
pub struct DropletsResponse {
    pub droplets: Vec<Droplet>,
    pub links: Links,
    pub meta: Meta,
}

/// The envelope of the single-droplet response.
#[derive(Clone, Debug)]
pub struct DropletResponse {
    pub droplet: Droplet,
    pub links: Option<Links>,
    pub meta: Option<Meta>,
}

/// The envelope of the droplet-creation response.
#[derive(Clone, Debug)]
pub struct CreateDropletResponse {
    pub droplet: Droplet,
    pub links: Option<Links>,
    pub meta: Option<Meta>,
    pub actions: Option<Vec<Action>>,
}

} // verus!
