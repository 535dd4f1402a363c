use crate::description::deploy::DeployTcmCenter;
use crate::description::host::HostTcmCenter;
use crate::description::proc::ProcTcmCenter;
use crate::description::DescriptorError;
use crate::lookup::NameTable;
use crate::text::{chars_of, display_width, str_width};
use crate::tools::deploy::{placements, placements_of, DeployInfo, Placement};
use crate::tools::host::{
    cluster_level, collect_host_info, hosts_resolved, placed_world, placed_zone, HostInfo,
};
use crate::tools::proc::{
    collect_proc_info, declared_groups, declared_procs, procs_resolved, ProcInfo,
};
use vstd::prelude::*;
use vstd::slice::slice_subrange;
use vstd::string::*;
use vstd::utf8::{decode_utf8, valid_utf8};

verus! {

/// What can be asked of the processes of an address.
#[derive(Debug, Clone, Copy, PartialEq, Eq, Structural)]
pub enum TcmCommand {
    ListProc,
    Start,
    Stop,
    CheckBe,
    CheckNo,
}

impl TcmCommand {
    /// The word of the command.
    pub open spec fn spec_name(self) -> Seq<char> {
        match self {
            TcmCommand::ListProc => "listProc"@,
            TcmCommand::Start => "start"@,
            TcmCommand::Stop => "stop"@,
            TcmCommand::CheckBe => "checkbe"@,
            TcmCommand::CheckNo => "checkno"@,
        }
    }

    /// The word of the command, as it is written out.
    pub fn name(&self) -> (s: String)
        ensures
            s@ == self.spec_name(),
    {
        match self {
            TcmCommand::ListProc => String::from_str("listProc"),
            TcmCommand::Start => String::from_str("start"),
            TcmCommand::Stop => String::from_str("stop"),
            TcmCommand::CheckBe => String::from_str("checkbe"),
            TcmCommand::CheckNo => String::from_str("checkno"),
        }
    }
}

/// Which descriptor to read.
#[derive(Debug, Clone, Copy, PartialEq, Eq, Structural)]
pub enum ParseType {
    HOST,
    PROC,
    DEPLOY,
}

/// A descriptor that was read.
#[derive(Debug)]
pub enum TcmCenterType {
    Deploy(DeployTcmCenter),
    Host(HostTcmCenter),
    Proc(ProcTcmCenter),
}

impl TcmCenterType {
    /// The deployment descriptor, where this is one.
    pub fn into_deploy(self) -> (center: Option<DeployTcmCenter>)
        ensures
            center == (match self {
                TcmCenterType::Deploy(deploy) => Some(deploy),
                _ => None,
            }),
    {
        match self {
            TcmCenterType::Deploy(deploy) => Some(deploy),
            _ => None,
        }
    }

    /// The process descriptor, where this is one.
    pub fn into_proc(self) -> (center: Option<ProcTcmCenter>)
        ensures
            center == (match self {
                TcmCenterType::Proc(proc) => Some(proc),
                _ => None,
            }),
    {
        match self {
            TcmCenterType::Proc(proc) => Some(proc),
            _ => None,
        }
    }

    /// The host descriptor, where this is one.
    pub fn into_host(self) -> (center: Option<HostTcmCenter>)
        ensures
            center == (match self {
                TcmCenterType::Host(host) => Some(host),
                _ => None,
            }),
    {
        match self {
            TcmCenterType::Host(host) => Some(host),
            _ => None,
        }
    }
}

/// What the program is started with: the directory of the descriptors, and
/// whether to log in detail.
#[derive(Debug)]
pub struct Args {
    pub config_path: String,
    pub debug: bool,
}

/// `input` with two spaces in place of each tab.
pub open spec fn expand_tabs(input: Seq<char>) -> Seq<char>
    decreases input.len(),
{
    if input.len() == 0 {
        input
    } else if input.last() == '\t' {
        expand_tabs(input.drop_last()) + seq![' ', ' ']
    } else {
        expand_tabs(input.drop_last()).push(input.last())
    }
}

/// Puts two spaces in place of each tab.
pub fn tabs_to_spaces(input: String) -> (out: String)
    ensures
        out@ == expand_tabs(input@),
{
    let chars = chars_of(input.as_str());
    let mut out = String::new();
    let mut i: usize = 0;
    while i < chars.len()
        invariant
            i <= chars.len(),
            out@ == expand_tabs(chars@.take(i as int)),
        decreases chars.len() - i,
    {
        proof {
            assert(chars@.take(i + 1).drop_last() =~= chars@.take(i as int));
            assert(chars@.take(i + 1).last() == chars@[i as int]);
        }
        if chars[i] == '\t' {
            out.push(' ');
            out.push(' ');
            assert(out@ =~= expand_tabs(chars@.take(i as int)) + seq![' ', ' ']);
        } else {
            out.push(chars[i]);
        }
        i = i + 1;
    }
    assert(chars@.take(chars.len() as int) =~= chars@);
    out
}

/// The kind of content that the first bytes of a file show, as a media type,
/// where they show one.
pub uninterp spec fn sniffed_mime(head: Seq<u8>) -> Option<Seq<char>>;

/// `infer::get` matches the bytes against its list of signatures and gives
/// the first kind that matches; `mime_type` is the media type of that kind.
/// The answer depends on the bytes alone.
#[verifier::external_body]
pub(crate) fn sniff_mime(head: &[u8]) -> (mime: Option<String>)
    ensures
        mime is Some == sniffed_mime(head@) is Some,
        mime is Some ==> mime->0@ == sniffed_mime(head@)->0,
{
    match infer::get(head) {
        Some(kind) => Some(kind.mime_type().to_string()),
        None => None,
    }
}

/// The text that bytes are read as when every part that is not UTF-8 gives
/// way to the replacement character.
pub uninterp spec fn lossy_text(bytes: Seq<u8>) -> Seq<char>;

/// `String::from_utf8_lossy` reads bytes as text and puts the replacement
/// character in place of what is not UTF-8; bytes that are UTF-8 throughout
/// come out as the text they encode.
#[verifier::external_body]
pub(crate) fn read_lossy(bytes: &[u8]) -> (text: String)
    ensures
        text@ == lossy_text(bytes@),
        valid_utf8(bytes@) ==> text@ == decode_utf8(bytes@),
{
    String::from_utf8_lossy(bytes).into_owned()
}

/// The number of bytes at the start of a file that its kind is judged by.
pub const SNIFF_LIMIT: usize = 8192;

/// The bytes that the kind of a file is judged by.
pub open spec fn sniffed_part(content: Seq<u8>) -> Seq<u8> {
    if content.len() > SNIFF_LIMIT {
        content.take(SNIFF_LIMIT as int)
    } else {
        content
    }
}

/// Whether `text` begins with `prefix`.
pub open spec fn has_prefix(text: Seq<char>, prefix: Seq<char>) -> bool {
    prefix.len() <= text.len() && text.take(prefix.len() as int) == prefix
}

/// A file counts as binary when its kind is known and is not a kind of
/// text.
pub open spec fn is_binary_mime(mime: Option<Seq<char>>) -> bool {
    mime is Some && !has_prefix(mime->0, "text/"@)
}

/// Whether `text` begins with `prefix`.
pub fn starts_with(text: &str, prefix: &str) -> (b: bool)
    ensures
        b == has_prefix(text@, prefix@),
{
    let t = chars_of(text);
    let p = chars_of(prefix);
    if p.len() > t.len() {
        return false;
    }
    let mut i: usize = 0;
    while i < p.len()
        invariant
            i <= p.len() <= t.len(),
            t@ == text@,
            p@ == prefix@,
            forall|k: int| 0 <= k < i ==> t@[k] == p@[k],
        decreases p.len() - i,
    {
        if t[i] != p[i] {
            assert(t@.take(p.len() as int)[i as int] == t@[i as int]);
            return false;
        }
        i = i + 1;
    }
    assert(t@.take(p.len() as int) =~= p@);
    true
}

/// Whether a media type, where one was found, says that a file is binary.
pub fn binary_by_mime(mime: &Option<String>) -> (b: bool)
    ensures
        b == is_binary_mime(
            match *mime {
                Some(m) => Some(m@),
                None => None,
            },
        ),
{
    match mime {
        Some(m) => !starts_with(m.as_str(), "text/"),
        None => false,
    }
}

/// Whether the content of a file is binary, judged by its first bytes.
pub fn is_binary_file(content: &[u8]) -> (b: bool)
    ensures
        b == is_binary_mime(sniffed_mime(sniffed_part(content@))),
{
    let head = if content.len() > SNIFF_LIMIT {
        slice_subrange(content, 0, SNIFF_LIMIT)
    } else {
        content
    };
    assert(head@ =~= sniffed_part(content@));
    let mime = sniff_mime(head);
    binary_by_mime(&mime)
}

/// Why a file cannot be shown.
#[derive(Debug, Clone, Copy, PartialEq, Eq, Structural)]
pub enum FileError {
    /// There is no file at the path.
    NotFound,
    /// The file is not text.
    Binary,
}

impl FileError {
    /// What the notice says about the file at `path`.
    pub open spec fn spec_message(self, path: Seq<char>) -> Seq<char> {
        match self {
            FileError::NotFound => "File -> ["@ + path + "] not exist"@,
            FileError::Binary => "File -> ["@ + path + "] is binary! \nCan't read!"@,
        }
    }

    /// The notice for the file at `path`.
    pub fn message(&self, path: &str) -> (text: String)
        ensures
            text@ == self.spec_message(path@),
    {
        let mut text = String::from_str("File -> [");
        text.append(path);
        match self {
            FileError::NotFound => text.append("] not exist"),
            FileError::Binary => text.append("] is binary! \nCan't read!"),
        }
        text
    }
}

/// What reading a file gives: its text, or why it has none.
pub open spec fn content_of(found: Option<Seq<u8>>) -> Result<Seq<char>, FileError> {
    match found {
        None => Err(FileError::NotFound),
        Some(bytes) => if is_binary_mime(sniffed_mime(sniffed_part(bytes))) {
            Err(FileError::Binary)
        } else {
            Ok(lossy_text(bytes))
        },
    }
}

/// The text of a file from what was found at its path: `None` where there is
/// no file, else its bytes. A file that does not exist and a binary file
/// each have their own error.
pub fn file_content(found: &Option<Vec<u8>>) -> (text: Result<String, FileError>)
    ensures
        match text {
            Ok(t) => content_of(
                match *found {
                    Some(b) => Some(b@),
                    None => None,
                },
            ) == Ok::<Seq<char>, FileError>(t@),
            Err(e) => content_of(
                match *found {
                    Some(b) => Some(b@),
                    None => None,
                },
            ) == Err::<Seq<char>, FileError>(e),
        },
{
    match found {
        None => Err(FileError::NotFound),
        Some(bytes) => {
            if is_binary_file(bytes.as_slice()) {
                Err(FileError::Binary)
            } else {
                Ok(read_lossy(bytes.as_slice()))
            }
        },
    }
}

/// The host records of the deployment descriptor. Any other descriptor is
/// refused.
pub fn return_hosts(center: TcmCenterType, table: &NameTable) -> (hosts: Result<
    Vec<HostInfo>,
    DescriptorError,
>)
    ensures
        match center {
            TcmCenterType::Deploy(deploy) => hosts_resolved(
                hosts,
                placements(deploy),
                table.entries(),
            ),
            _ => hosts == Err::<Vec<HostInfo>, DescriptorError>(DescriptorError::WrongDescriptor),
        },
{
    match center.into_deploy() {
        Some(deploy) => collect_host_info(deploy, table),
        None => Err(DescriptorError::WrongDescriptor),
    }
}

/// The process records of the process descriptor. Any other descriptor is
/// refused.
pub fn return_procs(center: TcmCenterType) -> (procs: Result<Vec<ProcInfo>, DescriptorError>)
    ensures
        match center {
            TcmCenterType::Proc(proc) => procs_resolved(
                procs,
                declared_procs(proc),
                declared_groups(proc),
            ),
            _ => procs == Err::<Vec<ProcInfo>, DescriptorError>(DescriptorError::WrongDescriptor),
        },
{
    match center.into_proc() {
        Some(proc) => collect_proc_info(proc),
        None => Err(DescriptorError::WrongDescriptor),
    }
}

/// What a deployment is known by before the id of its host is known: the
/// address, world and zone that identify the host, the group, and the
/// instance.
#[derive(Debug, PartialEq)]
pub struct DeployLookup {
    pub inner_ip: String,
    pub world_id: String,
    pub zone_id: String,
    pub group_name: String,
    pub inst_id: i32,
}

/// The texts and the instance of a lookup.
pub struct DeployLookupView {
    pub inner_ip: Seq<char>,
    pub world_id: Seq<char>,
    pub zone_id: Seq<char>,
    pub group_name: Seq<char>,
    pub inst_id: i32,
}

impl View for DeployLookup {
    type V = DeployLookupView;

    open spec fn view(&self) -> DeployLookupView {
        DeployLookupView {
            inner_ip: self.inner_ip@,
            world_id: self.world_id@,
            zone_id: self.zone_id@,
            group_name: self.group_name@,
            inst_id: self.inst_id,
        }
    }
}

/// The address that a placement without a host is looked up under.
pub open spec fn unnamed_host_address() -> Seq<char> {
    "localhost"@
}

/// Whether `table` has the host of the placement, where it names one.
pub open spec fn host_known(p: Placement, table: Map<Seq<char>, Seq<char>>) -> bool {
    p.host is Some ==> table.contains_key(p.host->0@)
}

/// The lookup of a placement. A placement without an instance number is
/// instance 0 at the level of the cluster and instance 1 in a zone.
pub open spec fn lookup_at(p: Placement, table: Map<Seq<char>, Seq<char>>) -> DeployLookupView {
    DeployLookupView {
        inner_ip: match p.host {
            Some(h) => table[h@],
            None => unnamed_host_address(),
        },
        world_id: placed_world(p),
        zone_id: placed_zone(p),
        group_name: p.group@,
        inst_id: match p.inst_id {
            Some(i) => i,
            None => if p.place is None {
                0i32
            } else {
                1i32
            },
        },
    }
}

/// What turning placements into lookups comes to. Where `table` has every
/// host that a placement names there is one lookup for each placement, in
/// order. Where it does not, the error names the first host that it lacks.
pub open spec fn lookups_resolved(
    lookups: Result<Vec<DeployLookup>, DescriptorError>,
    ps: Seq<Placement>,
    table: Map<Seq<char>, Seq<char>>,
) -> bool {
    match lookups {
        Ok(list) => {
            &&& forall|i: int| 0 <= i < ps.len() ==> host_known(#[trigger] ps[i], table)
            &&& list.len() == ps.len()
            &&& forall|i: int|
                0 <= i < list.len() ==> (#[trigger] list[i])@ == lookup_at(ps[i], table)
        },
        Err(e) => {
            &&& e matches DescriptorError::UnknownHost(name)
            &&& exists|i: int|
                0 <= i < ps.len() && !host_known(#[trigger] ps[i], table) && name@
                    == ps[i].host->0@ && forall|j: int|
                    0 <= j < i ==> host_known(#[trigger] ps[j], table)
        },
    }
}

/// The lookups of the deployments of a deployment descriptor, one for each
/// placement, in the order of the descriptor.
pub fn deploy_lookups(center: &DeployTcmCenter, table: &NameTable) -> (lookups: Result<
    Vec<DeployLookup>,
    DescriptorError,
>)
    ensures
        lookups_resolved(lookups, placements(*center), table.entries()),
{
    let ps = placements_of(center);
    let mut list: Vec<DeployLookup> = Vec::new();
    let mut i: usize = 0;
    while i < ps.len()
        invariant
            i <= ps.len(),
            list.len() == i,
            ps@ == placements(*center),
            forall|j: int| 0 <= j < i ==> host_known(#[trigger] ps[j], table.entries()),
            forall|j: int|
                0 <= j < i ==> (#[trigger] list[j])@ == lookup_at(ps[j], table.entries()),
        decreases ps.len() - i,
    {
        let p = &ps[i];
        let inner_ip = match &p.host {
            Some(host) => match table.get(host.as_str()) {
                Some(inner_ip) => inner_ip,
                None => {
                    assert(!host_known(ps@[i as int], table.entries()));
                    return Err(DescriptorError::UnknownHost(host.clone()));
                },
            },
            None => String::from_str("localhost"),
        };
        let (world_id, zone_id, unnumbered) = match &p.place {
            Some((world, zone)) => (world.clone(), zone.clone(), 1i32),
            None => (cluster_level(), cluster_level(), 0i32),
        };
        let inst_id = match p.inst_id {
            Some(inst_id) => inst_id,
            None => unnumbered,
        };
        list.push(
            DeployLookup { inner_ip, world_id, zone_id, group_name: p.group.clone(), inst_id },
        );
        i = i + 1;
    }
    Ok(list)
}

/// The deployment records of lookups, each with the id of its host:
/// `host_ids` holds the id for each lookup, in order. Without an id for each
/// lookup there are no records.
pub fn collect_deploy_info(lookups: &Vec<DeployLookup>, host_ids: &Vec<i32>) -> (deploys: Option<
    Vec<DeployInfo>,
>)
    ensures
        deploys is Some == (lookups.len() == host_ids.len()),
        deploys matches Some(list) ==> list.len() == lookups.len() && forall|i: int|
            0 <= i < list.len() ==> (#[trigger] list[i]).host_id == host_ids[i] && list[i].group_name
                == lookups[i].group_name && list[i].inst_id == lookups[i].inst_id,
{
    if lookups.len() != host_ids.len() {
        return None;
    }
    let mut deploy_info: Vec<DeployInfo> = Vec::new();
    let mut i: usize = 0;
    while i < lookups.len()
        invariant
            i <= lookups.len(),
            lookups.len() == host_ids.len(),
            deploy_info.len() == i,
            forall|j: int|
                0 <= j < i ==> (#[trigger] deploy_info[j]).host_id == host_ids[j]
                    && deploy_info[j].group_name == lookups[j].group_name
                    && deploy_info[j].inst_id == lookups[j].inst_id,
        decreases lookups.len() - i,
    {
        deploy_info.push(
            DeployInfo::new(host_ids[i], lookups[i].group_name.clone(), lookups[i].inst_id),
        );
        i = i + 1;
    }
    Some(deploy_info)
}

/// The grapheme clusters of a text: what a reader takes for its characters,
/// in order.
pub uninterp spec fn grapheme_clusters(s: Seq<char>) -> Seq<Seq<char>>;

/// The first `n` of `parts`, one behind the other.
pub open spec fn joined(parts: Seq<Seq<char>>, n: nat) -> Seq<char>
    decreases n,
{
    if n == 0 {
        Seq::empty()
    } else {
        joined(parts, (n - 1) as nat) + parts[n - 1]
    }
}

/// `unicode_segmentation::UnicodeSegmentation::graphemes`, asked for
/// extended clusters, cuts a text into its grapheme clusters: consecutive
/// pieces of the text that together make up the whole of it. Where it cuts
/// depends on the text alone.
#[verifier::external_body]
pub(crate) fn graphemes_of(src: &str) -> (clusters: Vec<String>)
    ensures
        clusters@.len() == grapheme_clusters(src@).len(),
        forall|i: int|
            0 <= i < clusters@.len() ==> (#[trigger] clusters@[i])@ == grapheme_clusters(src@)[i],
        joined(grapheme_clusters(src@), clusters@.len() as nat) == src@,
{
    unicode_segmentation::UnicodeSegmentation::graphemes(src, true).map(
        |cluster| cluster.to_string(),
    ).collect()
}

/// The number of characters in the clusters that fit into `offset` columns,
/// counted from cluster `from` on: clusters are taken while the next is no
/// wider than what is left of the columns.
pub open spec fn trimmed_chars(clusters: Seq<Seq<char>>, from: nat, offset: nat) -> nat
    decreases clusters.len() - from,
{
    if from >= clusters.len() {
        0
    } else if display_width(clusters[from as int]) <= offset {
        clusters[from as int].len() + trimmed_chars(
            clusters,
            from + 1,
            (offset - display_width(clusters[from as int])) as nat,
        )
    } else {
        0
    }
}

/// What is taken does not reach beyond the clusters.
pub proof fn lemma_trimmed_within(clusters: Seq<Seq<char>>, from: nat, offset: nat)
    requires
        from <= clusters.len(),
    ensures
        joined(clusters, from).len() + trimmed_chars(clusters, from, offset) <= joined(
            clusters,
            clusters.len(),
        ).len(),
    decreases clusters.len() - from,
{
    if from < clusters.len() {
        if display_width(clusters[from as int]) <= offset {
            lemma_trimmed_within(
                clusters,
                from + 1,
                (offset - display_width(clusters[from as int])) as nat,
            );
        } else {
            lemma_joined_grows(clusters, from, clusters.len());
        }
    }
}

/// More clusters make a longer text.
pub proof fn lemma_joined_grows(parts: Seq<Seq<char>>, n: nat, m: nat)
    requires
        n <= m,
    ensures
        joined(parts, n).len() <= joined(parts, m).len(),
    decreases m - n,
{
    if n < m {
        lemma_joined_grows(parts, n, (m - 1) as nat);
    }
}

/// `src` without the grapheme clusters at its start that fit into `offset`
/// columns.
pub fn trim_offset(src: &str, offset: usize) -> (rest: &str)
    ensures
        trimmed_chars(grapheme_clusters(src@), 0, offset as nat) <= src@.len(),
        rest@ == src@.skip(trimmed_chars(grapheme_clusters(src@), 0, offset as nat) as int),
{
    let clusters = graphemes_of(src);
    let ghost all = grapheme_clusters(src@);
    let total = src.unicode_len();
    let mut offset = offset;
    let ghost columns = offset;
    let mut start: usize = 0;
    let mut i: usize = 0;
    let mut fits = true;
    proof {
        lemma_trimmed_within(all, 0, columns as nat);
    }
    while fits && i < clusters.len()
        invariant
            i <= clusters.len(),
            all == grapheme_clusters(src@),
            clusters@.len() == all.len(),
            forall|k: int| 0 <= k < clusters@.len() ==> (#[trigger] clusters@[k])@ == all[k],
            joined(all, all.len()) == src@,
            total == src@.len(),
            start == joined(all, i as nat).len(),
            start + trimmed_chars(all, i as nat, offset as nat) == trimmed_chars(
                all,
                0,
                columns as nat,
            ),
            trimmed_chars(all, 0, columns as nat) <= total,
            !fits ==> trimmed_chars(all, i as nat, offset as nat) == 0,
        decreases clusters.len() - i + (if fits {
            1int
        } else {
            0int
        }),
    {
        let c = clusters[i].as_str();
        let w = str_width(c);
        if w <= offset {
            offset -= w;
            start += c.unicode_len();
            i = i + 1;
        } else {
            fits = false;
        }
    }
    src.substring_char(start, total)
}

} // verus!
