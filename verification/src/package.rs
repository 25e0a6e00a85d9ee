//! Package records and the write requests derived from them.

use vstd::prelude::*;
use vstd::string::StringExecFns;

verus! {

/// A package as the remote service stores it. The service assigns `id`, and
/// it never changes afterwards.
#[derive(Debug, Clone)]
pub struct Package {
    pub id: String,
    pub package_name: String,
    pub file_name: String,
    pub category_id: String,
    pub priority: i32,
    pub fill_user_template: bool,
    pub fill_existing_users: bool,
    pub reboot_required: bool,
    pub os_install: bool,
    pub suppress_updates: bool,
    pub suppress_from_dock: bool,
    pub suppress_eula: bool,
    pub suppress_registration: bool,
}

/// One page of a search for packages.
#[derive(Debug)]
pub struct PackageSearchResponse {
    pub total_count: i64,
    pub results: Vec<Package>,
}

/// What is written to the service to create a package or to replace its
/// metadata: every field of a record but the identifier.
#[derive(Debug)]
pub struct PackageCreateRequest {
    pub package_name: String,
    pub file_name: String,
    pub category_id: String,
    pub priority: i32,
    pub fill_user_template: bool,
    pub fill_existing_users: bool,
    pub reboot_required: bool,
    pub os_install: bool,
    pub suppress_updates: bool,
    pub suppress_from_dock: bool,
    pub suppress_eula: bool,
    pub suppress_registration: bool,
}

/// The installation-behaviour switches of a record or a request.
pub ghost struct Flags {
    pub fill_user_template: bool,
    pub fill_existing_users: bool,
    pub reboot_required: bool,
    pub os_install: bool,
    pub suppress_updates: bool,
    pub suppress_from_dock: bool,
    pub suppress_eula: bool,
    pub suppress_registration: bool,
}

/// The mathematical content of a write request.
pub ghost struct RequestView {
    pub package_name: Seq<char>,
    pub file_name: Seq<char>,
    pub category_id: Seq<char>,
    pub priority: int,
    pub flags: Flags,
}

/// The mathematical content of a record.
pub ghost struct PackageView {
    pub id: Seq<char>,
    pub request: RequestView,
}

/// All switches off.
pub open spec fn no_flags() -> Flags {
    Flags {
        fill_user_template: false,
        fill_existing_users: false,
        reboot_required: false,
        os_install: false,
        suppress_updates: false,
        suppress_from_dock: false,
        suppress_eula: false,
        suppress_registration: false,
    }
}

/// The priority of a package that is created without one being asked for.
pub open spec fn default_priority() -> int {
    3
}

/// The priority asked for, or `fallback` when none is.
pub open spec fn priority_or(priority: Option<i32>, fallback: int) -> int {
    match priority {
        Some(p) => p as int,
        None => fallback,
    }
}

impl View for PackageCreateRequest {
    type V = RequestView;

    open spec fn view(&self) -> RequestView {
        RequestView {
            package_name: self.package_name@,
            file_name: self.file_name@,
            category_id: self.category_id@,
            priority: self.priority as int,
            flags: Flags {
                fill_user_template: self.fill_user_template,
                fill_existing_users: self.fill_existing_users,
                reboot_required: self.reboot_required,
                os_install: self.os_install,
                suppress_updates: self.suppress_updates,
                suppress_from_dock: self.suppress_from_dock,
                suppress_eula: self.suppress_eula,
                suppress_registration: self.suppress_registration,
            },
        }
    }
}

impl View for Package {
    type V = PackageView;

    open spec fn view(&self) -> PackageView {
        PackageView {
            id: self.id@,
            request: RequestView {
                package_name: self.package_name@,
                file_name: self.file_name@,
                category_id: self.category_id@,
                priority: self.priority as int,
                flags: Flags {
                    fill_user_template: self.fill_user_template,
                    fill_existing_users: self.fill_existing_users,
                    reboot_required: self.reboot_required,
                    os_install: self.os_install,
                    suppress_updates: self.suppress_updates,
                    suppress_from_dock: self.suppress_from_dock,
                    suppress_eula: self.suppress_eula,
                    suppress_registration: self.suppress_registration,
                },
            },
        }
    }
}

impl PackageCreateRequest {
    /// The request that creates a package: no category (`-1`), every switch
    /// off, and the priority asked for or 3.
    pub fn new_default(package_name: &str, file_name: &str, priority: Option<i32>) -> (r: Self)
        ensures
            r@ == (RequestView {
                package_name: package_name@,
                file_name: file_name@,
                category_id: "-1"@,
                priority: priority_or(priority, default_priority()),
                flags: no_flags(),
            }),
    {
        let p: i32 = match priority {
            Some(p) => p,
            None => 3,
        };
        PackageCreateRequest {
            package_name: String::from_str(package_name),
            file_name: String::from_str(file_name),
            category_id: String::from_str("-1"),
            priority: p,
            fill_user_template: false,
            fill_existing_users: false,
            reboot_required: false,
            os_install: false,
            suppress_updates: false,
            suppress_from_dock: false,
            suppress_eula: false,
            suppress_registration: false,
        }
    }

    /// The request that replaces the payload of `old`: the file name is new,
    /// the priority is the one asked for or the old one, and everything else
    /// is carried over unchanged.
    pub fn from_old(old: &Package, new_file_name: &str, priority: Option<i32>) -> (r: Self)
        ensures
            r@ == (RequestView {
                file_name: new_file_name@,
                priority: priority_or(priority, old@.request.priority),
                ..old@.request
            }),
    {
        let p: i32 = match priority {
            Some(p) => p,
            None => old.priority,
        };
        PackageCreateRequest {
            package_name: old.package_name.clone(),
            file_name: String::from_str(new_file_name),
            category_id: old.category_id.clone(),
            priority: p,
            fill_user_template: old.fill_user_template,
            fill_existing_users: old.fill_existing_users,
            reboot_required: old.reboot_required,
            os_install: old.os_install,
            suppress_updates: old.suppress_updates,
            suppress_from_dock: old.suppress_from_dock,
            suppress_eula: old.suppress_eula,
            suppress_registration: old.suppress_registration,
        }
    }
}

impl Package {
    /// The record of a package that was just created from `request` and was
    /// given the identifier `id`.
    pub fn created(id: String, request: PackageCreateRequest) -> (p: Self)
        ensures
            p@ == (PackageView { id: id@, request: request@ }),
    {
        Package {
            id,
            package_name: request.package_name,
            file_name: request.file_name,
            category_id: request.category_id,
            priority: request.priority,
            fill_user_template: request.fill_user_template,
            fill_existing_users: request.fill_existing_users,
            reboot_required: request.reboot_required,
            os_install: request.os_install,
            suppress_updates: request.suppress_updates,
            suppress_from_dock: request.suppress_from_dock,
            suppress_eula: request.suppress_eula,
            suppress_registration: request.suppress_registration,
        }
    }
}

impl PackageSearchResponse {
    /// The first record of the page, if it has any.
    pub fn first_match(self) -> (r: Option<Package>)
        ensures
            match r {
                Some(p) => self.results.len() > 0 && p == self.results[0],
                None => self.results.len() == 0,
            },
    {
        let mut results = self.results;
        if results.len() == 0 {
            None
        } else {
            Some(results.swap_remove(0))
        }
    }
}

/// Replacing a payload never touches the name, the category or the switches
/// of a package, whatever file name and priority are asked for.
pub proof fn lemma_update_preserves_metadata(old: PackageView, updated: RequestView)
    requires
        exists|file_name: Seq<char>, priority: Option<i32>|
            updated == (RequestView {
                file_name: file_name,
                priority: priority_or(priority, old.request.priority),
                ..old.request
            }),
    ensures
        updated.package_name == old.request.package_name,
        updated.category_id == old.request.category_id,
        updated.flags == old.request.flags,
{
}

} // verus!
