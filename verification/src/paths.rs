use vstd::prelude::*;

verus! {

/// File name of the GUI configuration.
pub const GUI_CONFIG_FILENAME: &'static str = "gui_config.toml";

/// File name of the persisted GUI window state.
pub const GUI_STATE_FILENAME: &'static str = "gui_state.toml";

/// Base name of the GUI log files.
pub const GUI_TELEMETRY_FILENAME: &'static str = "gui";

/// Directory, below the working directory, that holds everything in
/// development builds.
pub const FALLBACK_DIR: &'static str = ".tivra";

/// Appends `name` to the `/`-separated path `base`, as `Path::join` does on
/// Unix: an absolute `name` replaces `base`; otherwise a separator is put
/// between them unless `base` is empty or already ends in one.
pub open spec fn spec_join(base: Seq<char>, name: Seq<char>) -> Seq<char> {
    if name.len() > 0 && name[0] == '/' {
        name
    } else if base.len() == 0 {
        name
    } else if base.last() == '/' {
        base + name
    } else {
        base + seq!['/'] + name
    }
}

/// What joining does: an absolute name (one beginning with `/`) or an
/// empty base gives the name itself; otherwise the result is the base, then
/// exactly one `/` before the name (the base's own trailing `/` where it has
/// one), then the name.
pub proof fn lemma_join_layout(base: Seq<char>, name: Seq<char>)
    ensures
        (name.len() > 0 && name[0] == '/') ==> spec_join(base, name) == name,
        base.len() == 0 ==> spec_join(base, name) == name,
        !(name.len() > 0 && name[0] == '/') && base.len() > 0 ==> {
            let r = spec_join(base, name);
            let k = r.len() - name.len();
            &&& r.subrange(0, base.len() as int) == base
            &&& r.subrange(k, r.len() as int) == name
            &&& k >= 1 && r[k - 1] == '/'
            &&& (k == base.len() || k == base.len() + 1)
            &&& k == base.len() <==> base.last() == '/'
        },
{
    if !(name.len() > 0 && name[0] == '/') && base.len() > 0 {
        let r = spec_join(base, name);
        let k = r.len() - name.len();
        assert(r.subrange(0, base.len() as int) =~= base);
        assert(r.subrange(k, r.len() as int) =~= name);
        if base.last() == '/' {
            assert(r[k - 1] == base[base.len() - 1]);
        }
    }
}

/// The path `name` below `base`.
pub fn join(base: &str, name: &str) -> (p: String)
    ensures
        p@ == spec_join(base@, name@),
{
    let n = name.unicode_len();
    let b = base.unicode_len();
    if n > 0 && name.get_char(0) == '/' {
        return String::from_str(name);
    }
    if b == 0 {
        return String::from_str(name);
    }
    let mut p = String::from_str(base);
    if base.get_char(b - 1) != '/' {
        p.append("/");
        proof {
            reveal_strlit("/");
        }
    }
    p.append(name);
    p
}

/// The standard directories the application uses.
#[derive(Clone, Debug)]
pub struct AppDirs {
    pub config: String,
    pub data: String,
    pub state: String,
    pub runtime: String,
    pub logs: String,
}

impl AppDirs {
    /// The file holding the GUI configuration, in the configuration directory.
    pub fn gui_config_file(&self) -> (p: String)
        ensures
            p@ == spec_join(self.config@, GUI_CONFIG_FILENAME@),
    {
        join(self.config.as_str(), GUI_CONFIG_FILENAME)
    }

    /// The file holding the GUI window state, in the state directory.
    pub fn gui_state_file(&self) -> (p: String)
        ensures
            p@ == spec_join(self.state@, GUI_STATE_FILENAME@),
    {
        join(self.state.as_str(), GUI_STATE_FILENAME)
    }

    /// The layout of development builds: everything below `.tivra` in the
    /// working directory `cwd`, with the logs inside the state directory.
    pub fn local(cwd: &str) -> (d: AppDirs)
        ensures
            d.config@ == spec_join(spec_join(cwd@, FALLBACK_DIR@), "config"@),
            d.data@ == spec_join(spec_join(cwd@, FALLBACK_DIR@), "data"@),
            d.state@ == spec_join(spec_join(cwd@, FALLBACK_DIR@), "state"@),
            d.runtime@ == spec_join(spec_join(cwd@, FALLBACK_DIR@), "runtime"@),
            d.logs@ == spec_join(spec_join(spec_join(cwd@, FALLBACK_DIR@), "state"@), "logs"@),
    {
        let root = join(cwd, FALLBACK_DIR);
        let state = join(root.as_str(), "state");
        let logs = join(state.as_str(), "logs");
        AppDirs {
            config: join(root.as_str(), "config"),
            data: join(root.as_str(), "data"),
            state,
            runtime: join(root.as_str(), "runtime"),
            logs,
        }
    }

    /// The layout of release builds, from the platform's project
    /// directories: the state directory falls back to the data directory,
    /// the runtime directory to the cache directory, and the logs live in
    /// `logs` below the state directory.
    pub fn from_platform(
        config: &str,
        data: &str,
        state: Option<&str>,
        runtime: Option<&str>,
        cache: &str,
    ) -> (d: AppDirs)
        ensures
            d.config@ == config@,
            d.data@ == data@,
            d.state@ == (match state {
                Some(s) => s@,
                None => data@,
            }),
            d.runtime@ == (match runtime {
                Some(r) => r@,
                None => cache@,
            }),
            d.logs@ == spec_join(d.state@, "logs"@),
    {
        let state_dir = match state {
            Some(s) => String::from_str(s),
            None => String::from_str(data),
        };
        let runtime_dir = match runtime {
            Some(r) => String::from_str(r),
            None => String::from_str(cache),
        };
        let logs = join(state_dir.as_str(), "logs");
        AppDirs {
            config: String::from_str(config),
            data: String::from_str(data),
            state: state_dir,
            runtime: runtime_dir,
            logs,
        }
    }

    /// The directories created when the paths are set up: configuration,
    /// data and state, then the runtime directory where `with_runtime`.
    pub fn directories_to_create(&self, with_runtime: bool) -> (v: Vec<String>)
        ensures
            v@.map_values(|s: String| s@) == (if with_runtime {
                seq![self.config@, self.data@, self.state@, self.runtime@]
            } else {
                seq![self.config@, self.data@, self.state@]
            }),
    {
        let mut v = Vec::new();
        v.push(self.config.clone());
        v.push(self.data.clone());
        v.push(self.state.clone());
        if with_runtime {
            v.push(self.runtime.clone());
        }
        assert(v@.map_values(|s: String| s@) =~= (if with_runtime {
            seq![self.config@, self.data@, self.state@, self.runtime@]
        } else {
            seq![self.config@, self.data@, self.state@]
        }));
        v
    }
}

} // verus!
