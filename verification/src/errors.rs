//! The error taxonomy of the runtime. Every failure is surfaced to the top
//! level with enough context (image name, digest, command, arguments) to
//! diagnose it, and any failure makes the process exit with code 1.

use vstd::prelude::*;
use vstd::string::StringExecFns;

verus! {

/// Everything that can go wrong during one invocation.
#[derive(Debug, Clone)]
pub enum RunError {
    /// The auth endpoint could not be reached, answered with a non-2xx
    /// status, or its body held no usable token field.
    AuthError { image: String },
    /// The manifest endpoint answered with a 404: the image or tag does not
    /// exist, as opposed to a generic network failure.
    NotFoundError { image: String, tag: String },
    /// The manifest response could not be parsed, lacked the layer-list
    /// field, or came with an unexpected non-2xx status.
    ManifestError { image: String, tag: String },
    /// One layer blob could not be fetched or unpacked; the digest names it.
    LayerExtractionError { digest: String },
    /// The target executable could not be copied into the ephemeral root.
    SeedError { path: String },
    /// The platform denied the root switch or the namespace isolation.
    PrivilegeError,
    /// The target command could not be spawned inside the prepared root.
    SpawnError { command: String, args: Vec<String> },
    /// A lower-level network failure outside the cases above.
    NetworkError,
    /// A lower-level filesystem failure outside the cases above.
    IoError,
}

/// The argument list as message text: one space before each argument, in
/// order; empty for no arguments.
pub open spec fn spec_args_text(args: Seq<Seq<char>>) -> Seq<char>
    decreases args.len(),
{
    if args.len() == 0 {
        Seq::empty()
    } else {
        spec_args_text(args.drop_last()) + " "@ + args.last()
    }
}

/// The operator-facing message of each error: tagged with the error's name
/// and carrying its context.
pub open spec fn spec_message(e: RunError) -> Seq<char> {
    match e {
        RunError::AuthError { image } => "AuthError: could not authorize pull access for image "@
            + image@,
        RunError::NotFoundError { image, tag } => "NotFoundError: image "@ + image@ + ":"@ + tag@
            + " was not found"@,
        RunError::ManifestError { image, tag } => "ManifestError: could not read the manifest of "@
            + image@ + ":"@ + tag@,
        RunError::LayerExtractionError { digest } => "LayerExtractionError: could not extract layer "@
            + digest@,
        RunError::SeedError { path } => "SeedError: could not seed the executable at "@ + path@,
        RunError::PrivilegeError => "PrivilegeError: the platform denied the root switch or the namespace detach"@,
        RunError::SpawnError { command, args } => "SpawnError: tried to run '"@ + command@
            + "' with arguments"@ + spec_args_text(args.deep_view()),
        RunError::NetworkError => "NetworkError: a registry request failed"@,
        RunError::IoError => "IOError: a filesystem operation failed"@,
    }
}

impl RunError {
    /// The process exit code owed on any internal failure.
    pub fn exit_code(&self) -> (r: i32)
        ensures
            r == 1,
    {
        1
    }

    /// Renders the message the operator sees on standard error.
    pub fn message(&self) -> (r: String)
        ensures
            r@ == spec_message(*self),
    {
        match self {
            RunError::AuthError { image } => String::from_str(
                "AuthError: could not authorize pull access for image ",
            ).concat(image.as_str()),
            RunError::NotFoundError { image, tag } => String::from_str("NotFoundError: image ")
                .concat(image.as_str()).concat(":").concat(tag.as_str()).concat(" was not found"),
            RunError::ManifestError { image, tag } => String::from_str(
                "ManifestError: could not read the manifest of ",
            ).concat(image.as_str()).concat(":").concat(tag.as_str()),
            RunError::LayerExtractionError { digest } => String::from_str(
                "LayerExtractionError: could not extract layer ",
            ).concat(digest.as_str()),
            RunError::SeedError { path } => String::from_str(
                "SeedError: could not seed the executable at ",
            ).concat(path.as_str()),
            RunError::PrivilegeError => String::from_str(
                "PrivilegeError: the platform denied the root switch or the namespace detach",
            ),
            RunError::SpawnError { command, args } => {
                let mut m = String::from_str("SpawnError: tried to run '").concat(
                    command.as_str(),
                ).concat("' with arguments");
                let ghost prefix: Seq<char> = m@;
                let n = args.len();
                let mut i: usize = 0;
                proof {
                    assert(m@ =~= prefix + spec_args_text(args.deep_view().take(0)));
                }
                while i < n
                    invariant
                        n == args@.len(),
                        0 <= i <= n,
                        m@ == prefix + spec_args_text(args.deep_view().take(i as int)),
                    decreases n - i,
                {
                    m.append(" ");
                    m.append(args[i].as_str());
                    proof {
                        let ads = args.deep_view();
                        assert(ads.take(i + 1).drop_last() =~= ads.take(i as int));
                        assert(ads.take(i + 1).last() == args@[i as int]@);
                        assert(m@ =~= prefix + spec_args_text(ads.take(i + 1)));
                    }
                    i += 1;
                }
                proof {
                    assert(args.deep_view().take(n as int) =~= args.deep_view());
                }
                m
            },
            RunError::NetworkError => String::from_str("NetworkError: a registry request failed"),
            RunError::IoError => String::from_str("IOError: a filesystem operation failed"),
        }
    }
}

} // verus!
