//! The names of the languages that the service knows, as it spells them.

use vstd::prelude::*;

verus! {

pub const AUTODETECT: &'static str = "Autodetect";

pub const PLAIN: &'static str = "Plain Text";

pub const APL: &'static str = "APL";

pub const PGP: &'static str = "PGP";

pub const ASN1: &'static str = "ASN.1";

pub const ASTERISK: &'static str = "Asterisk";

pub const BRAINFUCK: &'static str = "Brainfuck";

pub const CLANG: &'static str = "C";

pub const C: &'static str = "C";

pub const CPP: &'static str = "C++";

pub const COBOL: &'static str = "Cobol";

pub const CSHARP: &'static str = "C#";

pub const CLOJURE: &'static str = "Clojure";

pub const CLOJURE_SCRIPT: &'static str = "ClojureScript";

pub const GSS: &'static str = "Closure Stylesheets (GSS)";

pub const CMAKE: &'static str = "CMake";

pub const COFFEE_SCRIPT: &'static str = "CoffeeScript";

pub const LISP: &'static str = "Common Lisp";

pub const CYPHER: &'static str = "Cypher";

pub const CYTHON: &'static str = "Cython";

pub const CRYSTAL: &'static str = "Crystal";

pub const CSS: &'static str = "CSS";

pub const CQL: &'static str = "CQL";

pub const DLANG: &'static str = "D";

pub const D: &'static str = "D";

pub const DART: &'static str = "Dart";

pub const DIFF: &'static str = "diff";

pub const DJANGO: &'static str = "Django";

pub const DOCKER: &'static str = "Dockerfile";

pub const DTD: &'static str = "DTD";

pub const DYLAN: &'static str = "Dylan";

pub const EBNF: &'static str = "EBNF";

pub const ECL: &'static str = "ECL";

pub const EDN: &'static str = "edn";

pub const EIFFEL: &'static str = "Eiffel";

pub const ELM: &'static str = "Elm";

pub const EJS: &'static str = "Embedded Javascript";

pub const ERB: &'static str = "Embedded Ruby";

pub const ERLANG: &'static str = "Erlang";

pub const ESPER: &'static str = "Esper";

pub const FACTOR: &'static str = "Factor";

pub const FCL: &'static str = "FCL";

pub const FORTH: &'static str = "Forth";

pub const FORTRAN: &'static str = "Fortran";

pub const FSHARP: &'static str = "F#";

pub const GAS: &'static str = "Gas";

pub const GHERKIN: &'static str = "Gherkin";

pub const GFM: &'static str = "GitHub Flavored Markdown";

pub const GITHUB_MARKDOWN: &'static str = "GitHub Flavored Markdown";

pub const GO: &'static str = "Go";

pub const GROOVY: &'static str = "Groovy";

pub const HAML: &'static str = "HAML";

pub const HASKELL: &'static str = "Haskell";

pub const HASKELL_LITERATE: &'static str = "Haskell (Literate)";

pub const HAXE: &'static str = "Haxe";

pub const HXML: &'static str = "HXML";

pub const ASP_NET: &'static str = "ASP.NET";

pub const HTML: &'static str = "HTML";

pub const HTTP: &'static str = "HTTP";

pub const IDL: &'static str = "IDL";

pub const PUG: &'static str = "Pug";

pub const JAVA: &'static str = "Java";

pub const JSP: &'static str = "Java Server Pages";

pub const JAVASCRIPT: &'static str = "JavaScript";

pub const JSON: &'static str = "JSON";

pub const JSON_LD: &'static str = "JSON-LD";

pub const JSX: &'static str = "JSX";

pub const JINJA2: &'static str = "Jinja2";

pub const JULIA: &'static str = "Julia";

pub const KOTLIN: &'static str = "Kotlin";

pub const LESS: &'static str = "LESS";

pub const LIVESCRIPT: &'static str = "LiveScript";

pub const LUA: &'static str = "Lua";

pub const MARKDOWN: &'static str = "Markdown";

pub const MIRC: &'static str = "mIRC";

pub const MARIA_DB: &'static str = "MariaDB SQL";

pub const MATHEMATICA: &'static str = "Mathematica";

pub const MODELICA: &'static str = "Modelica";

pub const MUMPS: &'static str = "MUMPS";

pub const MS_SQL: &'static str = "MS SQL";

pub const MBOX: &'static str = "mbox";

pub const MYSQL: &'static str = "MySQL";

pub const NGINX: &'static str = "Nginx";

pub const NSIS: &'static str = "NSIS";

pub const NTRIPLES: &'static str = "NTriples";

pub const OBJ_C: &'static str = "Objective-C";

pub const OCAML: &'static str = "OCaml";

pub const OCTAVE: &'static str = "Octave";

pub const OZ: &'static str = "Oz";

pub const PASCAL: &'static str = "Pascal";

pub const PEG_JS: &'static str = "PEG.js";

pub const PERL: &'static str = "Perl";

pub const PHP: &'static str = "PHP";

pub const PIG: &'static str = "Pig";

pub const PLSQL: &'static str = "PLSQL";

pub const POWERSHELL: &'static str = "PowerShell";

pub const INI: &'static str = "Properties files";

pub const PROTOBUF: &'static str = "ProtoBuf";

pub const PYTHON: &'static str = "Python";

pub const PUPPET: &'static str = "Puppet";

pub const QLANG: &'static str = "Q";

pub const RSCRIPT: &'static str = "R";

pub const RST: &'static str = "reStructuredText";

pub const RPM_CHANGES: &'static str = "RPM Changes";

pub const RPM_SPEC: &'static str = "RPM Spec";

pub const RUBY: &'static str = "Ruby";

pub const RUST: &'static str = "Rust";

pub const SAS: &'static str = "SAS";

pub const SASS: &'static str = "Sass";

pub const SCALA: &'static str = "Scala";

pub const SCHEME: &'static str = "Scheme";

pub const SCSS: &'static str = "SCSS";

pub const SHELL: &'static str = "Shell";

pub const SIEVE: &'static str = "Sieve";

pub const SLIM: &'static str = "Slim";

pub const SMALLTALK: &'static str = "Smalltalk";

pub const SMARTY: &'static str = "Smarty";

pub const SOLR: &'static str = "Solr";

pub const SML: &'static str = "SML";

pub const SOY: &'static str = "Soy";

pub const SPARQL: &'static str = "SPARQL";

pub const SPREADSHEET: &'static str = "Spreadsheet";

pub const SQL: &'static str = "SQL";

pub const SQLITE: &'static str = "SQLite";

pub const SQUIRREL: &'static str = "Squirrel";

pub const STYLUS: &'static str = "Stylus";

pub const SWIFT: &'static str = "SWIFT";

pub const STEX: &'static str = "sTeX";

pub const LATEX: &'static str = "LaTeX";

pub const SYSTEM_VERILOG: &'static str = "SystemVerilog";

pub const TCL: &'static str = "Tcl";

pub const TEXTILE: &'static str = "Textile";

pub const TIDDLYWIKI: &'static str = "TiddlyWiki";

pub const TIKI_WIKI: &'static str = "Tiki Wiki";

pub const TOML: &'static str = "TOML";

pub const TORNADO: &'static str = "Tornado";

pub const TROFF: &'static str = "troff";

pub const TTCN: &'static str = "TTCN";

pub const TTCN_CFG: &'static str = "TTCN_CFG";

pub const TURTLE: &'static str = "Turtle";

pub const TYPESCRIPT: &'static str = "TypeScript";

pub const TYPESCRIPT_JSX: &'static str = "TypeScript-JSX";

pub const TWIG: &'static str = "Twig";

pub const WEB_IDL: &'static str = "Web IDL";

pub const VB_NET: &'static str = "VB.NET";

pub const VBSCRIPT: &'static str = "VBScript";

pub const VELOCITY: &'static str = "Velocity";

pub const VERILOG: &'static str = "Verilog";

pub const VHDL: &'static str = "VHDL";

pub const VUE: &'static str = "Vue.js Component";

pub const XML: &'static str = "XML";

pub const XQUERY: &'static str = "XQuery";

pub const YACAS: &'static str = "Yacas";

pub const YAML: &'static str = "YAML";

pub const Z80: &'static str = "Z80";

pub const MSCGEN: &'static str = "mscgen";

pub const XU: &'static str = "xu";

pub const MSGENNY: &'static str = "msgenny";

} // verus!
