use vstd::prelude::*;

use crate::action::{description_texts, string_views, ActionDescription, ActionState, StatefulAction};

verus! {

/// The tool that lists, adds and deletes APFS volumes.
pub const DISKUTIL: &'static str = "/usr/sbin/diskutil";

/// An action that creates an APFS volume called `name` on `disk`.
pub struct CreateApfsVolume {
    pub disk: String,
    pub name: String,
    pub case_sensitive: bool,
}

pub enum CreateApfsVolumeError {
    /// `diskutil apfs list` already shows a volume of this name.
    ExistingVolume(String),
}

/// The output of `diskutil apfs list -plist`, as far as planning reads it.
pub struct DiskUtilApfsListOutput {
    pub containers: Vec<DiskUtilApfsContainer>,
}

pub struct DiskUtilApfsContainer {
    pub volumes: Vec<DiskUtilApfsListVolume>,
}

pub struct DiskUtilApfsListVolume {
    pub name: String,
}

impl View for DiskUtilApfsListVolume {
    type V = Seq<char>;

    open spec fn view(&self) -> Seq<char> {
        self.name@
    }
}

impl View for DiskUtilApfsContainer {
    type V = Seq<Seq<char>>;

    open spec fn view(&self) -> Seq<Seq<char>> {
        self.volumes@.map_values(|v: DiskUtilApfsListVolume| v@)
    }
}

impl View for DiskUtilApfsListOutput {
    /// The names of the volumes of each container.
    type V = Seq<Seq<Seq<char>>>;

    open spec fn view(&self) -> Seq<Seq<Seq<char>>> {
        self.containers@.map_values(|c: DiskUtilApfsContainer| c@)
    }
}

/// Whether some container of the listing holds a volume called `name`.
pub open spec fn listing_has_volume(listing: Seq<Seq<Seq<char>>>, name: Seq<char>) -> bool {
    exists|i: int, j: int|
        0 <= i < listing.len() && 0 <= j < listing[i].len() && #[trigger] listing[i][j] == name
}

/// The file system that a volume is formatted with.
pub open spec fn file_system(case_sensitive: bool) -> Seq<char> {
    if !case_sensitive {
        "APFS"@
    } else {
        "Case-sensitive APFS"@
    }
}

impl CreateApfsVolume {
    /// The arguments of `diskutil` that list the existing volumes.
    pub fn list_arguments() -> (r: Vec<String>)
        ensures
            string_views(r@) == seq!["apfs"@, "list"@, "-plist"@],
    {
        let r = vec![String::from_str("apfs"), String::from_str("list"), String::from_str("-plist")];
        assert(string_views(r@) =~= seq!["apfs"@, "list"@, "-plist"@]);
        r
    }

    /// Plans creating the volume, given what `diskutil apfs list` showed:
    /// refused where a volume of that name exists already.
    pub fn plan(
        disk: String,
        name: String,
        case_sensitive: bool,
        listing: &DiskUtilApfsListOutput,
    ) -> (r: Result<StatefulAction<Self>, CreateApfsVolumeError>)
        ensures
            r is Err <==> listing_has_volume(listing@, name@),
            r matches Err(CreateApfsVolumeError::ExistingVolume(n)) ==> n@ == name@,
            r matches Ok(a) ==> {
                &&& a.state == ActionState::Uncompleted
                &&& a.action.disk == disk
                &&& a.action.name == name
                &&& a.action.case_sensitive == case_sensitive
            },
    {
        let mut i: usize = 0;
        while i < listing.containers.len()
            invariant
                i <= listing@.len(),
                listing@.len() == listing.containers@.len(),
                forall|ci: int, vj: int|
                    0 <= ci < i && 0 <= vj < listing@[ci].len() ==> #[trigger] listing@[ci][vj] != name@,
            decreases listing.containers.len() - i,
        {
            let container = &listing.containers[i];
            assert(listing@[i as int] == container@);
            let mut j: usize = 0;
            while j < container.volumes.len()
                invariant
                    i < listing@.len(),
                    listing@[i as int] == container@,
                    j <= container@.len(),
                    container@.len() == container.volumes@.len(),
                    forall|vj: int| 0 <= vj < j ==> #[trigger] container@[vj] != name@,
                decreases container.volumes.len() - j,
            {
                assert(container@[j as int] == container.volumes@[j as int].name@);
                if container.volumes[j].name == name {
                    assert(listing@[i as int][j as int] == name@);
                    return Err(CreateApfsVolumeError::ExistingVolume(name));
                }
                j = j + 1;
            }
            i = i + 1;
        }
        Ok(StatefulAction::new(CreateApfsVolume { disk, name, case_sensitive }))
    }

    pub open spec fn synopsis(self) -> Seq<char> {
        "Create an APFS volume on `"@ + self.disk@ + "` named `"@ + self.name@ + "`"@
    }

    pub fn tracing_synopsis(&self) -> (r: String)
        ensures
            r@ == self.synopsis(),
    {
        let mut s = String::from_str("Create an APFS volume on `");
        s.append(self.disk.as_str());
        s.append("` named `");
        s.append(self.name.as_str());
        s.append("`");
        s
    }

    pub fn execute_description(&self) -> (r: Vec<ActionDescription>)
        ensures
            description_texts(r@) == seq![(self.synopsis(), Seq::<Seq<char>>::empty())],
    {
        let r = vec![ActionDescription::new(self.tracing_synopsis(), Vec::new())];
        assert(description_texts(r@) =~= seq![(self.synopsis(), Seq::<Seq<char>>::empty())]) by {
            assert(r@[0].text().1 =~= Seq::<Seq<char>>::empty());
        }
        r
    }

    /// The arguments of `diskutil` that create the volume.
    pub open spec fn execute_args(self) -> Seq<Seq<char>> {
        seq!["apfs"@, "addVolume"@, self.disk@, file_system(self.case_sensitive), self.name@, "-nomount"@]
    }

    pub fn execute_arguments(&self) -> (r: Vec<String>)
        ensures
            string_views(r@) == self.execute_args(),
    {
        let fs = if !self.case_sensitive {
            String::from_str("APFS")
        } else {
            String::from_str("Case-sensitive APFS")
        };
        let r = vec![
            String::from_str("apfs"),
            String::from_str("addVolume"),
            self.disk.clone(),
            fs,
            self.name.clone(),
            String::from_str("-nomount"),
        ];
        assert(string_views(r@) =~= self.execute_args());
        r
    }

    pub open spec fn revert_synopsis(self) -> Seq<char> {
        "Remove the volume on `"@ + self.disk@ + "` named `"@ + self.name@ + "`"@
    }

    pub fn revert_description(&self) -> (r: Vec<ActionDescription>)
        ensures
            description_texts(r@) == seq![(self.revert_synopsis(), Seq::<Seq<char>>::empty())],
    {
        let mut s = String::from_str("Remove the volume on `");
        s.append(self.disk.as_str());
        s.append("` named `");
        s.append(self.name.as_str());
        s.append("`");
        let r = vec![ActionDescription::new(s, Vec::new())];
        assert(description_texts(r@) =~= seq![(self.revert_synopsis(), Seq::<Seq<char>>::empty())]) by {
            assert(r@[0].text().1 =~= Seq::<Seq<char>>::empty());
        }
        r
    }

    /// The arguments of `diskutil` that delete the volume.
    pub open spec fn revert_args(self) -> Seq<Seq<char>> {
        seq!["apfs"@, "deleteVolume"@, self.name@]
    }

    pub fn revert_arguments(&self) -> (r: Vec<String>)
        ensures
            string_views(r@) == self.revert_args(),
    {
        let r = vec![String::from_str("apfs"), String::from_str("deleteVolume"), self.name.clone()];
        assert(string_views(r@) =~= self.revert_args());
        r
    }
}

impl CreateApfsVolumeError {
    pub open spec fn message_text(self) -> Seq<char> {
        match self {
            CreateApfsVolumeError::ExistingVolume(n) => "Existing volume called `"@ + n@
                + "` found in `diskutil apfs list`, delete it with `diskutil apfs deleteVolume \""@
                + n@ + "\"`"@,
        }
    }

    /// The error's message.
    pub fn message(&self) -> (r: String)
        ensures
            r@ == self.message_text(),
    {
        match self {
            CreateApfsVolumeError::ExistingVolume(n) => {
                let mut s = String::from_str("Existing volume called `");
                s.append(n.as_str());
                s.append("` found in `diskutil apfs list`, delete it with `diskutil apfs deleteVolume \"");
                s.append(n.as_str());
                s.append("\"`");
                s
            },
        }
    }
}

/// Reverting deletes the volume that executing creates: the name that
/// `diskutil apfs deleteVolume` is given is the name the volume was added
/// under, on the planned disk.
pub proof fn lemma_revert_deletes_created_volume(v: CreateApfsVolume)
    ensures
        v.revert_args()[2] == v.execute_args()[4],
        v.execute_args()[4] == v.name@,
        v.execute_args()[2] == v.disk@,
{
}

/// Planning is refused for a name that any volume of any container of the
/// listing has, wherever it stands in its container.
pub proof fn lemma_plan_refuses_every_existing_volume(
    listing: Seq<Seq<Seq<char>>>,
    name: Seq<char>,
    i: int,
    j: int,
)
    requires
        0 <= i < listing.len(),
        0 <= j < listing[i].len(),
        listing[i][j] == name,
    ensures
        listing_has_volume(listing, name),
{
}

/// Planning is refused only for a name that some volume of the listing
/// has: where no volume has it, planning succeeds.
pub proof fn lemma_plan_refuses_only_existing_volumes(listing: Seq<Seq<Seq<char>>>, name: Seq<char>)
    ensures
        listing_has_volume(listing, name) <==> exists|i: int, j: int|
            0 <= i < listing.len() && 0 <= j < listing[i].len() && listing[i][j] == name,
        (forall|i: int, j: int|
            0 <= i < listing.len() && 0 <= j < listing[i].len() ==> listing[i][j] != name)
            ==> !listing_has_volume(listing, name),
{
    if listing_has_volume(listing, name) {
        let (i, j) = choose|i: int, j: int|
            0 <= i < listing.len() && 0 <= j < listing[i].len() && #[trigger] listing[i][j] == name;
        assert(0 <= i < listing.len() && 0 <= j < listing[i].len() && listing[i][j] == name);
    }
}

/// The volume is always added unmounted, on the planned disk, under the
/// planned name; case sensitivity changes only the file system argument.
pub proof fn lemma_execute_args_shape(v: CreateApfsVolume, w: CreateApfsVolume)
    ensures
        v.execute_args().len() == 6,
        v.execute_args()[0] == "apfs"@,
        v.execute_args()[1] == "addVolume"@,
        v.execute_args()[2] == v.disk@,
        v.execute_args()[4] == v.name@,
        v.execute_args()[5] == "-nomount"@,
        v.execute_args()[3] == (if v.case_sensitive { "Case-sensitive APFS"@ } else { "APFS"@ }),
        v.disk@ == w.disk@ && v.name@ == w.name@ ==> forall|k: int|
            0 <= k < 6 && k != 3 ==> v.execute_args()[k] == w.execute_args()[k],
        v.revert_args().len() == 3,
        v.revert_args()[0] == "apfs"@,
        v.revert_args()[1] == "deleteVolume"@,
{
}

} // verus!
