//! The raw limb data of permutation width 8: the `(8 + 64) * 8`
//! additive round constants and the `8 * 8` row-major mixing matrix,
//! each entry a canonical field value below the modulus, little-endian in
//! four 64-bit limbs.

use vstd::prelude::*;

verus! {

use vstd::slice::slice_to_vec;

const C_T8: [[u64; 4]; 576] = [
    [8064555558842848662, 5251536035053355353, 1413779812510791635, 1313242253830761061],
    [1847484771536615171, 1008464887008113809, 11062142636158815061, 3432991264316393934],
    [7896127538879737132, 1419440419715321795, 7180895920112479434, 2438973308333035275],
    [11360503857688379064, 9212072583062582103, 15882570516963172560, 1912911389471990008],
    [10683713790680945107, 4619437470954483529, 13219511475115122641, 2994004266342465738],
    [7310703939399294819, 11565031100737275738, 11676481071163038342, 1057346977772166644],
    [514081811944481598, 12068498034923762957, 16198294290921877654, 484619751767371077],
    [10891223295130873898, 4582100590776282819, 12125565230348996699, 850295046228016635],
    [16280800162297202605, 2017752585176349738, 4232110415860190492, 1963556959521378457],
    [681477520434187814, 3288153678754442519, 16094959855289370092, 107818747264700140],
    [4798334808928399977, 1462102870572654317, 3790596509807580580, 932715165626169872],
    [3628595090702744800, 11135973587155085820, 4948065307482605762, 1791496608151603958],
    [14486586643156521214, 8148847753536354526, 3388126980766815240, 1656114916413042219],
    [15362470673813105775, 10829039560684923379, 8579920059550715140, 1076308326292790989],
    [15175034257790773986, 7185593774488231323, 3523830700123516916, 272194898911848186],
    [1069056780895992011, 10810583363000089299, 650963221279331008, 448904170216899646],
    [4119194801852740435, 5773466338655052134, 15677842932181602507, 3239914188113072915],
    [1654792766569343796, 8650896974324599095, 16498922223299517761, 3057515869887369428],
    [7396365898281327937, 14958780987734145403, 8292378426230332333, 2743822608471125388],
    [14628297871693465018, 4262185987225190585, 18442180634629720461, 2390392229107619762],
    [14992810064725272914, 17881035296786866812, 11915874940369371472, 617427140475986272],
    [12340478105269819568, 12331089313325301579, 11169013578577996109, 1675048199607919396],
    [11086866482976305662, 13924170936760122257, 8723290394964876392, 332581356626120229],
    [2460485993512965447, 5403115318547372512, 9999906714658326230, 944251583259647492],
    [5955569062304442313, 1453048633832364756, 13422059563368443016, 3279432848116638642],
    [7729966355661398868, 14929365186530330397, 3020245555793816392, 3077993209713639394],
    [1248563186769560572, 17802754865165737682, 311610418315970282, 2539808892190053789],
    [17841683165606637351, 309045615279745583, 2388244086969130819, 1783788636372438515],
    [6510811620969226960, 14834741988195883854, 17107513935727200455, 1757820947850361090],
    [6466679824479067090, 12682691719114986450, 2877531487286399179, 1206756450073101211],
    [11625774119392637868, 17158499613604542874, 6444940427524994580, 1602867363137473317],
    [13098761323895188364, 14045580011722736395, 9304604566789476132, 2964958034205427499],
    [8999758462505376283, 13759575224798601875, 5633171405554299758, 2723263800009809091],
    [16505883576294094745, 4555613518103005321, 10445050673888759370, 1498644793322113072],
    [11736555180502582551, 17859934254931357307, 10587693970472659655, 1739885542926662525],
    [10320309475474665928, 4826585546408664468, 11498619189693950358, 2405772695345514330],
    [15881868598791674765, 7762508152376369846, 14958622217927130645, 298283700441929494],
    [12485097659868652855, 15275183184311717142, 10969341428638424519, 2470168711239421450],
    [1871099761296424239, 556839854077143553, 14596975065026995997, 331310223415569694],
    [223486663697887133, 11985360554194288911, 8249171438363543702, 454454211661296303],
    [543052097415346754, 14617438699257973019, 6291476956442434277, 430584710131483519],
    [9762762054014740918, 15394735577584227827, 10983382922398766454, 2318475842000987368],
    [10038841677960922413, 13327647354493239245, 16024973798878713161, 687414350968882828],
    [17560846572016806439, 13164167198093606483, 10311987092012258784, 3223896178549381647],
    [11988924940943829152, 8423236538762028123, 12113346776194320126, 1013209182213280829],
    [11218580203906810147, 16764912797592506430, 3225715566501399306, 3322707104383195839],
    [8178842855079545669, 3837880545938265464, 4852728544689111060, 2818395655239021799],
    [17878014084988755627, 13883472263202444624, 14617416201152394615, 711182982583230729],
    [11067094539173661191, 3583362805560517494, 10747214107991629662, 1838256385463290641],
    [3519907466870276081, 9855724201093033399, 17075845375583518050, 2478669600740760376],
    [4965004192231646923, 14003109876592534153, 10265749510655375296, 148473067981286809],
    [12197362493596387778, 16982036423460589655, 12590987151484049296, 2030635648156197754],
    [15694446906631788318, 11231435819636528880, 6213613039898808551, 2615241823221664307],
    [576014988721947085, 10126637456297254823, 14278236134041464757, 1190650727991655793],
    [5939455369775716801, 15866882729035573682, 5826460159645384432, 3381177329454998086],
    [14200686329356976842, 3107067808440433678, 5405139960882706101, 1768708579687022690],
    [5561166453168970401, 6047444374069899296, 9499384876535229865, 424851326707294924],
    [356632210115689238, 5136929925079349903, 15372886195467007793, 2689622437093335326],
    [1141098740640818781, 3122971921191712044, 9980759026718713406, 2085843778928340583],
    [14586636561220904417, 15236076605203855024, 2992845226479967601, 1183085781622945258],
    [13027776771118467606, 16097914668682648979, 14405056626310616597, 835292704662080971],
    [11997117902878063604, 3867758020569398812, 321557366772987595, 3375043281756243685],
    [3374098961315828941, 9022002632359695327, 12041252002858125099, 2577803649789514992],
    [15474617059900954595, 17340242011339614952, 4670560847302204548, 2881641821808519811],
    [12650292126364104308, 13108250165310894207, 10391015043648846811, 3252912074387498350],
    [17931569852107692279, 377801530267836141, 14873965851602808416, 328009353457505413],
    [13651953347057000338, 6908893144450409045, 1590618382031637420, 1012218102623459805],
    [17929994425390854066, 8439153933916071242, 6059280354066508032, 2525785038609638885],
    [6006785407242851210, 11499235556487336845, 1865347763824025325, 216014075393117435],
    [108070073131950449, 9589225175081371298, 9869259412906734211, 1624005369101921043],
    [18142585414420539341, 1893485547048914954, 16745279803745036451, 2922146159405318736],
    [15532726034589582273, 12599059850521182312, 12023260793344727676, 2565188345971817026],
    [3949547454121688036, 12409718437657735778, 18216258470975633644, 1571847369914402054],
    [14704708221040345830, 7539833170638358537, 14054591756208795086, 1483086592374029718],
    [11826463148372591932, 9494627266632275389, 546198172495899794, 828678791707464115],
    [12708978184335137968, 18290790611700318303, 1277588263239797143, 841081675338732440],
    [4481846931625703534, 3155090045393185840, 7472733739889834132, 1698500863299448544],
    [16917593666729230861, 3767821131631817941, 1200383220182826622, 686139002996655577],
    [13258215934794570750, 17567041869603234335, 6314421355290983985, 3177577291061170810],
    [17687983128137387888, 9350298706642399358, 12901700069552499279, 802573312273944396],
    [15955891046131767738, 16047763058896241163, 4514794719585163228, 3296724819775993635],
    [17042158854391415214, 550145819043898270, 12826010697118399280, 2827568154561757011],
    [3286385921500115194, 8457480524616587224, 14257675659096582444, 2700339803320375200],
    [3085978529080959512, 7297034175476175523, 11962393720895799904, 2395088055802749071],
    [3966629279009700490, 16501857651006461107, 18092146133290643085, 550428610350136438],
    [8083272633549995649, 9898165869250710729, 12181408895135640474, 1787501610016762275],
    [2538110700906713098, 16118259000885357521, 1789031215659281122, 1311126801300070273],
    [16316247641931360414, 12119490622778690509, 15779967142324244406, 665703794767978749],
    [12239774926031492294, 13780392486959789645, 8314968164420921308, 2968357216728835513],
    [7320197041947678244, 9353487905235733412, 18171627602358424196, 2257211740029221058],
    [18093805024190460004, 6081805140970192891, 13810205453891465265, 2672828595647475310],
    [2829547929780586986, 10486377015607073407, 16910242626266246015, 64244230397923307],
    [13301666946915758969, 4534292612637662687, 2960405952596525821, 1759711849223048925],
    [12437463687032598196, 4789977269519445876, 16249471989577867689, 419444097874806360],
    [17713676852013887693, 4238664485540094756, 14589551139257494642, 2233906967655703403],
    [14055101733473122807, 8763333142004561612, 10375474642839756775, 2923184990004346951],
    [18288418164784016763, 7936021226203644573, 11161596213134035133, 1276022589556882393],
    [16532634846012170903, 12544889627498234909, 4133090910767493926, 523742713751904495],
    [1245668545614981635, 15169076354968446230, 12782899551101450564, 3169178595904391561],
    [18261334380676656562, 3196756009351831054, 17736315621555506274, 3469746956806161102],
    [14843451804839171234, 14644514653420938839, 6574887294837397337, 2220474610147322635],
    [3108148613075112015, 5404118277375980664, 3078584076969851518, 2752959337350844043],
    [10057949843024700529, 16288424449981295196, 1476296117355446885, 1842056381262076659],
    [12432656892797494180, 760443185620423215, 3067877267896825944, 3434072299793417453],
    [2537863911050424229, 3340428679177033613, 11206941616520830468, 2773103887729962224],
    [2686307465716542509, 6361820990008005201, 690298192068358867, 3392622736068146516],
    [11327113520130960140, 6030985490764779019, 3638895253243584010, 2324308028335256948],
    [4111006157683391695, 7027764894025288253, 8650928313101022671, 722956747677963302],
    [14767700359160010411, 369972766555418949, 6678909827132477890, 3384939472696532819],
    [14882000616404902735, 3045423674893518772, 12070516699021435019, 3068862237330667499],
    [13892983689808302018, 8959050735089567479, 9586967431926083116, 302466741558162964],
    [12477660093441621499, 340048931189706134, 687293342237083957, 2126227762516663283],
    [17633678092583353827, 11562083724968013330, 12645676352508805, 1934805215714119064],
    [9415695586054696853, 11867153695650196673, 11705782399206437529, 1851835034695103757],
    [4568899100169083288, 8819036721142715142, 5260701375159704705, 1381903528661807744],
    [6429249067702237476, 9574274069500104525, 1330446388119945127, 2967489451964728890],
    [3452980380391165572, 8104776184250765359, 9050122485639420024, 183798066166476999],
    [11813679932308427187, 16953049193297568307, 17997211343672616756, 1274474017360925666],
    [9528508263650336470, 5665811689432413223, 3540037128013633833, 1922830252936239941],
    [8673276876743190632, 11472891069990813408, 4721405705016707559, 1863093726431705886],
    [9334184985202052093, 3247618201186416099, 6560500690738188269, 188223044855970575],
    [1188417056314699938, 15573392172827837154, 14982163004059988432, 2918859857355502832],
    [16594199016453813851, 2158014049545487528, 488467363118740618, 443781556101453202],
    [12665885897230483384, 15130914050116589041, 6281433846212546868, 2478514249085671924],
    [9009650107962045988, 7132848629635088478, 1496467270008337472, 27907757058307623],
    [12426233986374950298, 7995096267223317957, 6725818618791865175, 1665598044217489716],
    [17131416400902334674, 7741207602472959214, 6439450253178646808, 2010909164553492553],
    [16388129843467232143, 12164894549625687527, 6955450295080513197, 1533213707544444116],
    [6609269301930384600, 14471357168632042957, 18014707972319426249, 1868120664560815111],
    [3045482174633159958, 7349585945699641542, 2615673023855362370, 2798448603362532448],
    [6463226672402392239, 6371711152156034322, 16476870464482480237, 2935086912323868804],
    [16006525252399893728, 14911188681839454913, 2181784535744644390, 2773314404643664279],
    [7056266068942838149, 10298024529854735865, 90715132774576397, 3344846763278438616],
    [10252508128984496192, 17536417096141106552, 14181242142765945679, 1658327570923709307],
    [4294786302332845655, 14364939531072036084, 12292866199470054189, 2397135292697364422],
    [12331904657341993636, 17496473039611389879, 8641392492978764893, 722617042039812332],
    [14641598288799237706, 11963275714992776024, 14754632493518532304, 3023745429167072309],
    [1693553385078563014, 362611327697407779, 1110445707026452588, 2623510567345703267],
    [16528797502248704615, 13842137775960556861, 5554626747591509139, 297871451259299703],
    [7620266952546298657, 3910758634614193875, 2967609883265855950, 980042986662206973],
    [14179467566572339546, 3726539564775813565, 1092841693817478143, 2289904639840855260],
    [8106021335494864115, 6566272880693209957, 3865057676655555210, 3413975218890687591],
    [11448471359773560448, 3919196654248531692, 17693698279066383173, 1885729548656418900],
    [11929573471318559565, 2141416915347353056, 11121327546514252188, 723613105644283543],
    [5330755266398551938, 2514976715985238281, 6159944923462904968, 2750049442592198498],
    [3098499334240478265, 8871141984840354618, 1452785116873863557, 1850234562871674007],
    [7263681491098310090, 17223941220614611562, 9779836558476177548, 2746689314365882510],
    [15189731353062063961, 5639734445615460578, 10366286184391220694, 476473899396554449],
    [17234570702213767880, 14478537483360504230, 3134155076263640824, 1598251791878528876],
    [17121732872933140915, 4776348422407164194, 7528216864226947948, 1336798059019163797],
    [9002289181358285801, 14288930140392410728, 14093775083718207932, 1362683169695014675],
    [18239458085590647152, 11226126153962709074, 60901927505733456, 2155404411322276380],
    [6103543967268392717, 2945485124432633753, 10035383342872917256, 2306629754739987422],
    [18161190744556426801, 12782509438719821260, 118156576775409631, 2951799146229712797],
    [8589349627051010859, 11390916982900496499, 3412623331312744920, 1867776364758662951],
    [13240706497197402529, 12899615291550110952, 16333660570069644124, 422572858284993685],
    [523426106177077447, 6779732351737397708, 3150969923154156162, 2624406438208063918],
    [18006514025020568494, 6633498383936335084, 1084513794909560961, 1981269742959961858],
    [6416528873480069345, 5962114221802637848, 1594590773016411290, 2080750319763542323],
    [13197551674061505739, 6736506586591081489, 12977920148591019332, 3331086142763783048],
    [10722116439923019707, 2554133115904186163, 3418501460062216791, 2274619211902688941],
    [6561489339836455206, 13616386684171990415, 1000904664331796314, 1227270494710569434],
    [17060881999252087286, 3647592367521103644, 17255431945984181825, 258440659595439349],
    [18176238096920053306, 1448948119688240531, 11253208047693780814, 749727352988468083],
    [4878616946809744988, 6864829317252628239, 15713709400500273443, 2026894422781948063],
    [7491027594340495293, 904360801159444958, 5132181010789563819, 1232496932512288509],
    [10474548506203227828, 18314045001152751762, 9430054086395017680, 31080483172437497],
    [15445237511833517956, 13617984051099778525, 16331715104037760985, 3007377431056537234],
    [4023010917887512285, 2615513892206487386, 678952275869620595, 2746372978363805488],
    [15284265216836946940, 6887578799690891008, 17086277121998014833, 540306140458637879],
    [747767737204260302, 2343351978108115778, 3829888495440991555, 1619318928583230146],
    [9474617197999425371, 11489522059793445488, 18236282538516180368, 1902124457552689414],
    [12984846445247465385, 1883543706237570880, 7264743509503403056, 2761649673628120946],
    [14299251852402091038, 10289680010831273565, 11841708072323592656, 3356392151203526469],
    [3364373271557841306, 6216014668416314093, 5354164595761690015, 2874143573521891937],
    [10136279729557209026, 10983812543730159395, 4892570099148325249, 979613049415056525],
    [14819188614315539573, 7676298723824496440, 12697299706819544393, 1928572910500899859],
    [10600642797667132335, 962901465767419759, 6905834531004620797, 905506679294193401],
    [6520323083490434644, 122024477649403220, 17502160351465739599, 2633307977817410908],
    [9623183007597226334, 16088664772076713219, 13708573949719768273, 1905580807952753584],
    [17361058977327184049, 1667507162390737028, 11849757658507189242, 1558956422969150722],
    [10181964012123796808, 4917844520451253307, 4677777560761297586, 2887864022721849669],
    [18170327303854615632, 6694953113187507784, 9534692706429551573, 3074103694866955294],
    [15665928970207548292, 10998230150312211431, 2692022490142234844, 1083464490175760909],
    [2794555160142283389, 636281555569161110, 14950963855499388142, 472239991541888869],
    [7493052147491101422, 12172526254288745834, 16817212186535512936, 2148439909943251998],
    [9175476770681730935, 4245030557785388941, 5795848414982206166, 3001745842172231467],
    [16348488069772819507, 13585154236936909239, 1007128934114407953, 2342425346975052691],
    [14766741098940691067, 6456937015392220616, 7245369348402300632, 3380575262883912224],
    [10928610657171334586, 7330805957780937761, 7886248396626099777, 1881212431008600862],
    [9286578448391556907, 1739155211464603932, 16641512756331801521, 2157188024622545109],
    [18286697379034460745, 12435568923987037739, 12006075611756412493, 1154061444713593548],
    [1158258499861741376, 6622947638979014327, 9228386648381394802, 2363941148571089816],
    [3856696268403567239, 5890805903307762916, 8786802232253788709, 2319016604981829148],
    [9768984447327602813, 2608490323782163809, 9932499227426091203, 1223753194821111481],
    [18004645452849929397, 4346108314834248640, 15478025287499411869, 173398717012014685],
    [397370622073535739, 7065442607085872382, 12608368876040307028, 1165283633214033982],
    [5395830180100376098, 9993508291783845727, 2792941771712187377, 635040195916254490],
    [15745551467521609744, 7757312595960243003, 3249758542448050486, 1238461113057885229],
    [3576554289858504549, 14346128637903019243, 17069368585829441277, 452759047042478054],
    [5390996468739659910, 14991432916833058989, 16662986601166142023, 846047197990306454],
    [7800915361364674695, 3783038441345736555, 15069400494297775374, 837205221534492813],
    [1660954512539201719, 3283801255608497680, 11173395239319718492, 746088034569260560],
    [926980872728115819, 6414228798579952748, 4163409901606525067, 226197376251990670],
    [6825066592735300765, 8290227955490385807, 11200203397341753132, 1271867055987065461],
    [9163311209152025374, 8400741090666046337, 2774285686940358032, 887261841927480967],
    [18155438597129146750, 13396917552873510070, 1027914131237753563, 2462797925655962292],
    [1691108004003037193, 15325762766150783393, 1986504219044339806, 2159755356778942871],
    [6179208418995938869, 17994852179670878588, 3980930392380786384, 2462264107588765107],
    [14627079280155577616, 12394753390601481432, 16486690101106247, 544983848125593882],
    [4106588534275284318, 4654751173668668119, 5290654542916055422, 3202181404966946538],
    [12285920927869798133, 17461179428110942848, 7644881672896169622, 409306494563967556],
    [1280793876055849277, 3726536249657746768, 11642840712269519347, 1760593863566449702],
    [17265008406728981777, 5351256155867600358, 14764728346960043582, 2029635695796609970],
    [7999712498255363669, 8968082998730218589, 14063844162815711737, 3445673418631049577],
    [9245617415808456480, 16213150986467437683, 12364431355146553026, 2602989829551719448],
    [8143404817988938287, 810840810822560139, 5180846065724213911, 6392239354015343],
    [12852694255155070975, 9618717468672613132, 1604885552208851952, 2825024452368615],
    [13316704230779193789, 13390027614190090729, 6583555414731542664, 3476545404872290626],
    [8045961033821808231, 1602272952733229573, 5660293391926419481, 1482884193603645385],
    [4203393250105802730, 338432052733598440, 14186810035508377885, 224295671982255191],
    [1948701346467480728, 2942839011129778901, 9929932600255678073, 898606659850408811],
    [8943667938877770509, 10140230960901289797, 1705129068565953784, 801837634576929326],
    [2729073828165305183, 782639897339124478, 13928026061505266516, 1285156331304618438],
    [11608133527345340927, 1020534490887696810, 14463261096134876067, 599595152619685176],
    [18262383883066695754, 5767038567197348499, 14870766456721180528, 2698665424342528973],
    [6992484046423900087, 11507845106594511153, 185596845700317079, 769613812633064482],
    [14158995351042663492, 16055400926131413620, 18368961649888485269, 2023898160931994839],
    [17175726950573512160, 4453267142280704149, 10932943516861208962, 1477405307582405116],
    [14446297066395235925, 11765539307351615820, 8036765253212194946, 1761206897384458514],
    [5075521165076211917, 14669964543529756233, 8107388051667796687, 1052794709857631132],
    [260009346778232060, 774893818358111600, 11138012118131005831, 3327659627432048322],
    [7727559939119462307, 10345307507790862897, 3522800991546807079, 2118440729469708128],
    [14375452826759766147, 5210241350593295052, 13861947423061367040, 3021793315816632813],
    [2138492564611326941, 15431297565441368950, 2213367240295320502, 2378938869035169617],
    [4080512527024339299, 8150321078664228606, 7102800469357819452, 995777904831087259],
    [4098778506716869147, 9803060615741166349, 13382229876492344898, 2209944153364546954],
    [7635700127506399266, 16218823171660863252, 11213057407814240748, 12976708535581842],
    [6964753597724172049, 13531301875288740740, 5859420452278582470, 1302888578352763256],
    [10449268062512225592, 10547650650942016077, 3559208295652143517, 3321208826006337040],
    [17798197324369019957, 18403001101694733804, 17385823513505863164, 2356279026029828094],
    [10219482759860263566, 11047879333501095675, 10468207697187286983, 3023284544967051060],
    [14182517972247259888, 9796025882802670771, 7275548535315247388, 2673308719703756353],
    [11987787434820644033, 17451078413112176449, 12310605775386651136, 3215891169736515150],
    [2464505402385175143, 11746128532722837627, 8111963549871552950, 1080536606783283979],
    [9060499860695412287, 17607401991628173979, 13674343945832685742, 1432740324706243878],
    [5069210523329779745, 10157235040911608633, 10020621172826477950, 3180815500622806069],
    [11814602340488777067, 4889015533154435784, 13551859371517977964, 3213219196510214467],
    [4630156022182153461, 8134337016292702080, 782509698579901975, 952641820904821816],
    [8712415434846738041, 10776130300854024002, 10347833027835974734, 1312338032784928037],
    [16960993998609966687, 6407467663006028330, 6056092207014737994, 1972635241997670467],
    [15585107912221795380, 16043574298040523122, 15621030187575286115, 249826389804240954],
    [9092298755846534754, 12959218870129871410, 1313023018257117511, 3379707282334058398],
    [14889723137570680652, 10565507108971408460, 14480667425923542471, 1225556365905202809],
    [8169318000177926031, 12557849053719050988, 4818517366339792270, 2165829075005037372],
    [2656267963586904589, 3640797971054611756, 3264367795519621548, 3056840064166683500],
    [8428823956387562560, 10529827187765920069, 13021851649765262032, 2863689985957614488],
    [14997503661585028515, 14535650078033450387, 7866515711185299948, 3320272003853087374],
    [1519561068655557478, 11530443477003386154, 7531631218287034777, 1196536070513366549],
    [5971083021658370074, 4709327601281004693, 16999951857004802823, 862335019614851598],
    [4041089902654850407, 9450552441703388838, 1338375109109171604, 1114845950560245201],
    [16112517216229740545, 776280315845814992, 4777717143784135536, 1595926848538843439],
    [3193098803575351138, 12459664309990465487, 10773081396532139241, 1929741807960561918],
    [10671229855878714167, 12827064147960425880, 15024173321135852759, 3258118411888973430],
    [12266662428341813524, 9249236940948592600, 17068490559517584353, 116155031595748867],
    [3065485485414435400, 15318580886066457682, 17296384263953607798, 1095182442545941728],
    [12155209368691721957, 9681588708627083144, 13139896658361010584, 3235223101869021855],
    [1301128099178629771, 11699890247706009475, 9054260948585062759, 1395369375817141873],
    [16707533872655152787, 14354741780823551871, 5273207982106960634, 2106815369272860308],
    [3488942657022140850, 17772583266897901737, 9045042190091269223, 1054864729599419391],
    [13016664056305039909, 10249496345298472696, 401102874210493193, 2220428887460335940],
    [815970372982245101, 16266197696399077783, 7004724551971672315, 783451700731203202],
    [6249096012806480427, 7632364866441501123, 11790793030378174008, 2597523970719635902],
    [6750619287992519636, 15404292149084069859, 10333223358588927843, 2657030812237585392],
    [11492308695916458124, 14848786925342559582, 15779336467857866706, 1589059972595566952],
    [15384110561975940186, 17808851016935320201, 8747166181785994687, 1974020714442902038],
    [2835887832178324305, 8644368805645349313, 12170244623954067770, 2608995660165132052],
    [16445194634528925228, 8658885919573655950, 14614104174457576879, 487142233373271412],
    [2788585380645573441, 16198971429774004288, 6309524975787954119, 2396872020286009672],
    [9594214629253213668, 2495889382733809166, 2787236898905296438, 2141494164520753202],
    [12015309340656549647, 18060428884499309209, 12613704447995427787, 3013679716244221583],
    [17869214069894585480, 12133828569049093410, 11497000312338454847, 1813085271538826893],
    [7122673283267013800, 6409410659015185389, 16642648356512637314, 860211125502921704],
    [15026089514498044480, 4220300769568485656, 5948192380146104535, 489522001761701314],
    [6358024303284589398, 11554141930308612541, 15399879341860058698, 1330530206831322271],
    [4145967979724249295, 17954003046374867052, 17665599475468505604, 3033171601361000290],
    [7899781012908602996, 2706761197529308541, 2691436369423839077, 1802815063439250119],
    [1405706745882910008, 343964302078928234, 2306248124425257912, 1250697472640264354],
    [3400679234933260024, 13553255978031948761, 7757751035863130482, 30215165241592254],
    [788381103360779726, 8418648184437042147, 10614366122511387577, 1424949814840480594],
    [13324871345516663973, 4860281116953094517, 8339009438594861349, 1133723579753382855],
    [14150382122570714108, 7796733487198501353, 7929478308568022441, 404002311572892598],
    [12018110616448147966, 4208972445721017943, 1124159937861090985, 2871143613378370008],
    [11206360775565170319, 11018560411888590292, 14337862479036938597, 2443993142959868738],
    [9997615627854127783, 3703071105728495871, 431754954086863490, 468756416765663005],
    [8172860836484058223, 5846089443636973070, 11803252973846655061, 479484731271670709],
    [3215543352968516807, 7112889101234271138, 9124310473764075166, 1512822111451203109],
    [13116648708709383617, 10365131591068574333, 2877215107698233100, 649369230685509454],
    [17548428387491644485, 18087748396314869242, 13383160205288605323, 3234215634603481204],
    [6297090250008960213, 14640204674775917695, 15642246039286385445, 1950016092064704372],
    [8690287764314657450, 8386156733530708980, 6872398574624416615, 435643097216596558],
    [5577746594727261238, 17675966258764324026, 4894810287933986231, 304855838221690904],
    [5752799561335280909, 9875884128380808351, 16475034635829406952, 1326086791960963578],
    [17356200897631074279, 3565203452210017342, 14855040921890216372, 2805130542419028658],
    [6774463393993007202, 12203149614837963452, 14891262074264534106, 2860390377360305974],
    [18041688927926294746, 13641714784579754811, 1417620205829720988, 1225667977894384067],
    [4078873017850937665, 14396046052821639418, 6823454631581765136, 1740479284469679831],
    [1749662183019174518, 14289784582387809518, 11550069692489172623, 2666931281304803287],
    [4438791450151885356, 13541790698294327852, 7085403907828499985, 482461212508282244],
    [11653775837428771866, 15094604350377307175, 2837256757343169499, 448869714194379282],
    [462301717443144083, 794794395614465492, 6971311861971732146, 447876549610006948],
    [14204994713465011424, 4752751548185934526, 14933997681952211110, 1099393859493157489],
    [196893282834388851, 7714310709571216056, 2576570985723018198, 1085061313843018162],
    [10292510783365927450, 9224681168408978097, 4138253025641778349, 134877860082106113],
    [1107554609241528716, 2514138698974810025, 11935690832284518143, 2080763930921650307],
    [12596656162265685421, 7432432925455791660, 15867369561009486164, 251955046186204511],
    [5398996700091213031, 17788663034659397282, 3005880141078975455, 2005973288874121459],
    [14941434161022183942, 14551591905454973665, 8065492465945092796, 1135722737431080916],
    [9342739352899516391, 17090930463175731031, 12753615424089549049, 2832663989134982904],
    [9239742949395878102, 3864699100067195439, 9434041268990669657, 1818031232202931430],
    [4766654518125566069, 17821945475844315275, 12514766486180834331, 1041109138522068081],
    [2613149496349988372, 1909052893598592154, 9468903327971682731, 2050686261977532444],
    [3337186034215077389, 5639127094258346925, 10943920630424194975, 612559273154448435],
    [13058265797257529318, 18155263704467026477, 3052829469071700373, 3247681289825779990],
    [9722825464081052296, 2178157866443095076, 4909507845512957022, 902323337591215952],
    [8200188785067922918, 144943032325107519, 10502300888888278933, 3326459282632421559],
    [10645501245262283124, 5779536622513823449, 12724766468728710976, 1380384710562217562],
    [9130080106689011205, 2169988219692595226, 4762005529927077402, 2423518518150396676],
    [17055155988671105150, 10031261165748866260, 18073412870112812428, 603185376694279119],
    [6349678928168986457, 5426909503588830916, 272707893892213269, 3129853778917891751],
    [477320899911869389, 2525281461629421736, 1656004343097559463, 2295235423445429854],
    [9723014048137465620, 9422501151221768687, 15257686607981128322, 203271370592896848],
    [3361827148284492325, 3022798929111854841, 11219497519685114534, 874249134678083495],
    [51187422066492420, 3455432420943656321, 4237177607694674750, 1977677003899240904],
    [17659123795733206559, 5929487739677792455, 9334227856966020670, 2876848665878519525],
    [6964637684230205048, 13358240065917080999, 503735549030957421, 2220011146733021845],
    [15094601954494842573, 6291586790985377632, 7611200051637831833, 2725859608650186844],
    [2021551406375127588, 13578174050204947838, 3030787844439910390, 1702618296947442106],
    [10533223966808605259, 2570149191179763564, 11190815138618888178, 203590279079908988],
    [2895460097043961546, 10729769856624203833, 11988602204382494370, 148154681686427985],
    [10480851902355023483, 81561607612530222, 18440610348278224386, 2638155576801221536],
    [1499127337400424922, 8599739963837114656, 1874294800458379155, 137619650118163811],
    [6981744595166781436, 11005509661438360428, 8887037439841143592, 69587939422891630],
    [352431351971817070, 7952273555655683573, 8654488110594747478, 1009209867983911005],
    [12905078718602838821, 7550360179860434324, 5456346838403142709, 2833450821559901334],
    [5750676776469914765, 7263237052223587527, 12403377042538541230, 68057844582886584],
    [17943315570695741683, 7372390397443356535, 8133660475701207264, 2408070694588974581],
    [213677326277048398, 7056087262578023264, 9931214106565512682, 1914572970468100902],
    [15455669169356865156, 16518628783438126416, 4787665621588996527, 3288529528023524018],
    [9548274516907435185, 3096978220227727504, 14623796483378652599, 3024057778263673199],
    [6872939112516944695, 4993161936793541062, 948422444147268561, 367397868004547058],
    [14258640991807531165, 11433746286252265641, 4063910887478041108, 1124852471008296494],
    [9856619435465512762, 15797826332324628747, 16455849123735183185, 1581281414741884435],
    [4738900681298868064, 5257403450868078745, 958080375215966529, 2236101812716968624],
    [8846096136434054270, 12252090672012354481, 9614445505205821079, 1514878874792264071],
    [3758615611950696811, 16872811311718329153, 3439052187673686854, 1090020013943755902],
    [16102393811801694428, 2209361904990098850, 2387169973205962145, 1627718309143607753],
    [11702576643946560209, 9201980401809472277, 856646220832583077, 2902674703605568315],
    [363850499013400901, 11615776164419023003, 18150383460132775633, 2846349111163167841],
    [10773725290240359846, 4029176959670628919, 3166671683990402480, 2818875561667146463],
    [5209063392839064673, 13720279059978581643, 13367699488299490250, 3022401656928197356],
    [5495676888181387747, 8020119292029000127, 15777080878312303526, 2976682296982979135],
    [15095126220512869655, 17282701965452625381, 1302644046336053187, 1471359979654531352],
    [16907170501826573282, 17209920375652413287, 14832629075144318717, 985737434948569871],
    [7784365027204782274, 1377501094266557223, 17579562473858804684, 2739539650817231440],
    [6693587171640327071, 12530676293785828941, 15264156469279450109, 2914868674690037910],
    [16415789780399902216, 6860010130371378672, 18034653713821702891, 793988754384932779],
    [8306809787134048072, 17767108554972294843, 13907492721776008118, 362717434560010302],
    [8210479996304252651, 4037693943538634301, 7045187946038317469, 659264949380096188],
    [7393303094185150428, 3076800664174790947, 18014499816513308543, 929661661859289993],
    [3951496759569407044, 15501789230693486721, 7555845023005394745, 3344318939538130178],
    [16131292824034342946, 8902128688295173610, 6322153288040003834, 178168428786258230],
    [16463214499984276046, 12239682325007752805, 6330073430690316560, 1646779430967014734],
    [2164438280976189770, 11035969467355250278, 5762359715261578245, 1555805183637927045],
    [9199637625119612282, 12799632786091432253, 5554838975820240852, 2455247279992882618],
    [14830065196002091079, 6768359882317875857, 7615272332363937068, 3301289016126100177],
    [3626310467709678351, 1575957452908229936, 16354549283416718083, 2642278918912581967],
    [17872770958359113255, 496215632938895482, 1037116204989583636, 3414967551438079514],
    [17894545077764179072, 16964573999254098761, 2215927049732059632, 2258703627970988145],
    [11253251119025877664, 6731282963738361066, 6323055657384553182, 412700131374757962],
    [5240822181796082497, 15594769706793243728, 14651776741503515645, 2859476226101147523],
    [17609189074422584815, 7993816068343794262, 17765690403642916641, 1105615843043022823],
    [3055413940205473519, 15506858662540958488, 8432665339192978579, 2104847105010179543],
    [18182014937144578559, 12067703225255329726, 3153856079428535477, 1775315885652531824],
    [7063860859822026017, 741518636060491011, 13205182858872855688, 795700559528244288],
    [14826325960646419185, 2860138377732527297, 9016663903460837104, 1240355729031078597],
    [17368987645036016300, 6420294500696423311, 9293616224217727616, 2436101235933358719],
    [14719426834923704878, 4903558825462837385, 11174910018623493262, 2903242206091043671],
    [18207017845105931482, 8535600061118916283, 2747050947431195277, 2110511169569313219],
    [18113087314832581199, 14418619525694709124, 8137189420354206346, 292910333886894332],
    [7584234744511541007, 5910473126996604855, 5360881604024597919, 3464486038347799576],
    [13890151645712825209, 3190453895915589133, 13673040089854070110, 249992730108221771],
    [2979804812860971411, 15865125056271284324, 6790160862702738537, 2974136873359931020],
    [17723811473920092848, 9743734841478150518, 715772923166778808, 2022953596440669656],
    [7749888671131524675, 18271435785355849333, 8962368233220902047, 915032581119916257],
    [10398633612087432389, 11517292728180323667, 15162128175851032256, 2806304912523712955],
    [8940265879112469629, 1257868483826047344, 7890497356329044846, 697768367001404087],
    [11776392133759949940, 14316948078160759795, 3997344648605560947, 2010871162517896471],
    [10485550531629056874, 985595033991695325, 2582641536381278275, 2627542228926407741],
    [16201056239912206857, 15116865924403925771, 1022602640003304125, 1832244304067292620],
    [9991373256947432740, 13312916255814381021, 10416073277866219689, 2100406439049594115],
    [9520524115736228187, 4413734350796341940, 1810194726437713586, 3035954177513966579],
    [7356907042055760601, 14678266320196955438, 6569609621036264352, 188135751582592598],
    [3426670790253065699, 4571302557330629869, 7784905020283916106, 2585513762332670898],
    [8744281957382291261, 13489672272454914629, 15717332016431531340, 1370810123892779243],
    [2439018329875796658, 5914992126319833282, 771514910723552430, 1332238101724024770],
    [6788360189276524950, 17346249775103938502, 1954423684347273565, 2612536778863556008],
    [5320326189092008246, 4542432424478285365, 5387700639846815411, 3312350157027218516],
    [14596764793921206592, 17265292175471292794, 5319625115789918262, 1111356773801845477],
    [6726727460034174172, 12102005536328517966, 574346221730339607, 2802026896790379624],
    [11081990439627939064, 6301047564352226515, 16487974839524966101, 2049669154520894093],
    [2249936660899956655, 18386825612456214619, 7821464339699479278, 3039660738487550838],
    [3762325228656800714, 12642989235772808715, 9213786270405737691, 872274169524790538],
    [15292978373504917477, 3607951309955232422, 12618169474792907517, 111428006349167680],
    [17749250865510477574, 2267446279182852702, 4463360742380737929, 2500456952290249948],
    [2196515251405858974, 5574973289733174708, 2319624101552257076, 1217827719262488494],
    [2499713989763609938, 2340194877391999494, 13536932633575644577, 395731070661922987],
    [10499124980435561507, 3992492643280368359, 5114743024173511313, 1347275673440445176],
    [15066190697199262450, 13182974668765903859, 15079834695057314223, 805155283131712418],
    [8694420845390088341, 16733896765025524534, 16772273853240666290, 827983403420282016],
    [2084931115380808235, 15192884216009723430, 9756717617138582088, 1417238052251315330],
    [7662335772641192313, 6027438619345676586, 17757007602607482497, 3306582885272306535],
    [9263811506206809966, 1604062835499698633, 12862771155872310819, 1990609412762080568],
    [9576021416820677036, 1347042417102393381, 13537867142006263918, 2810209508471179598],
    [4376835729300179874, 14628176825024782731, 13070449851876700353, 1296779517097765563],
    [13895259360114659700, 12967746919152986850, 16761477747204290485, 2741626437207375610],
    [11045255814554158331, 17865994290311843570, 4039263955464449940, 417296022389185887],
    [2844666303884616837, 17012633925977028603, 12239927766659555427, 1779910494588206817],
    [7451638890822603625, 3465678081216116784, 14213615452193669859, 2681094366354395619],
    [10738057681220745022, 5766926360828946539, 17469004196140248130, 94438338855564346],
    [2467935790546370212, 16762011378796132874, 1942548299283041861, 2686650909202343785],
    [12063295435450481617, 2081017415159007105, 6603525353971155365, 161792767726726100],
    [9615374832016233966, 2516411049401560022, 13276852707297306090, 1590258137111365462],
    [327656385670465453, 13199220006516680243, 18394494262354184090, 862265091565892400],
    [3271943296847264973, 8459501701982929973, 18242383200860529848, 1569662400039473287],
    [4616409522824595042, 9835163973273646767, 10876432045932592879, 961748488438895919],
    [13311145638086081724, 4926462466258518511, 358632476509588581, 290181792323609067],
    [2220848207261086052, 15489160061154057926, 12564506696672666395, 3434151782930388153],
    [8986917071505136681, 4588134339421930028, 5846341988679127988, 104876245235995594],
    [12390658710969490018, 13199870405572487424, 4911695471028181298, 96038370577804787],
    [8008330317909289674, 13853013751962850271, 547752355207993309, 183374951091020345],
    [7983716335154610633, 8013225941749247431, 1764953150391740259, 3190971787054422459],
    [4599781714679612381, 11081548117827661433, 15381594345713385977, 2302826801473212967],
    [12859262867171943236, 12665794440073816318, 1130189572961265725, 270696815476146948],
    [16162147480330106983, 11227177865528668774, 8004406064668964352, 2225730455520270988],
    [8063379284058308628, 1090456591515393843, 2093130343812262041, 1793664001269768113],
    [12312017965653980477, 871561049248640837, 16259372945616502788, 2826347434313668064],
    [12794617852933455109, 14915912248824050794, 966456239164724634, 576294000216646834],
    [2296844045398608894, 12654272909008698070, 4130975512909459209, 2990869138210304632],
    [16153541054246043699, 18245637904257091279, 4149486311441995988, 62306074825910439],
    [13885822875758453309, 9455244227077716110, 3667657221552009426, 597859425712913764],
    [9061548002265442481, 10258854917630777497, 4555147923684324271, 2174925254537363341],
    [2261953684618278263, 10885288894305791543, 12693798446468604026, 916510680849250],
    [5649109289498793650, 12301380089043227334, 4861282154229373063, 2038323733425444870],
    [17691239689940435758, 18355783097334136943, 17122868871608651588, 293792477032453663],
    [15029051372639721457, 7372480008403891389, 2716347567919283292, 127344146432468309],
    [9036326269130367625, 1786035192506399291, 12122243929891212809, 2535424063182945758],
    [16382611874571640762, 14973543833303751404, 1059277556457980124, 2077690070820785986],
    [1795537282391140948, 13264809039798517637, 7031322250055115778, 268388580935698476],
    [7812121299743030250, 17342312256457407834, 4915213513790183001, 1624207961055297542],
    [10225509662780714888, 11146530253815705393, 7329554229121244026, 2184797055726986252],
    [14760222804337718540, 13243894556712147515, 16532372824304850854, 1943965748113062253],
    [18050814698928045514, 17003217306099543509, 14701545636651821768, 1240160975862074569],
    [14217287016499134637, 11279077256003181315, 3104362581362541401, 2960221873547789774],
    [508917862281768950, 5973763100047792779, 12228100889629508900, 2362272340220791214],
    [290614524730576989, 959578460592176622, 18167143679819765167, 986421500455656473],
    [13443479514932596918, 17160794275608151738, 15941401158182151100, 964648937335737535],
    [12898675056890937434, 7961656372404257685, 3959465430860325417, 3193069148393848753],
    [1705426853176721332, 12799920044292041843, 6463122493471401381, 1687335534644649246],
    [1098155658829449031, 13468924346361519304, 4998050313619722772, 1297877688702318731],
    [12600975989363334332, 7746857580333405897, 14285523604982627158, 2461578074524340863],
    [6335034799569331947, 1221538594227103389, 14523744921789174562, 3370504252253448882],
    [13360150777194628771, 13872300628263040425, 8059966213694314863, 3412641365731144067],
    [17284521644861578658, 1040093075156777692, 4274749893400641848, 1407546087855359893],
    [14730652615081307194, 17430437153586400397, 8291919248296094644, 2087294345591204980],
    [570982030265599797, 14472303568308782846, 536007318442359848, 3174666275890027671],
    [10123490566625232490, 16172410622044543889, 3710973158347561136, 2934120229297231894],
    [12392628464187378938, 18279809726988346241, 6147347438765694273, 2109612165757295590],
    [15898389293385825029, 17043197532526572066, 1028070492793768153, 1747924677084653381],
    [5515100931642494807, 6157629370232717040, 9619790128646524780, 3255730324972810384],
    [5748995444679397525, 4090778386843977649, 17818811341147719601, 108942419701163884],
    [9659967285430470264, 1800951941439189898, 18347496836449309426, 526442745025350401],
    [16704334570299495581, 5281917086442561584, 11311162510084570903, 2282564910329777493],
    [154342215867597617, 11942820598481298726, 8898888045009137676, 2184463876583793849],
    [12613564303780822619, 10661657564617939176, 18446027162186703959, 202384192143235775],
    [4376527848234063309, 9618478229398999388, 16678833889962409793, 726397070537750618],
    [2837382738990124353, 14176529864606226299, 16916014933940155385, 1639204914577233506],
    [3021541505347247771, 11168255125201412406, 6313880498199555199, 1112293854194153268],
    [12126454107499898737, 15778712615237325761, 17682408957826970678, 2114944692964425080],
    [8261356460652084282, 626347500004158951, 8840852234608162982, 2926840401855036545],
    [3412015357833823025, 17714435635351364433, 2028861456892467030, 956994785315968101],
    [920130284663157551, 11045659472586498679, 1374316396109201285, 1841245096866612958],
    [15262585189170876165, 16719155610476088507, 13725835929827979805, 1678577003421212033],
    [13528711395767825087, 7489723170648843745, 12571993057304222795, 3276372489702508370],
    [10433436135857121572, 1978629639006143459, 10416600426678210386, 873685152253540387],
    [3070355560959020852, 17623722948622781441, 3680880850543164568, 744812851256616133],
    [8008925009420533228, 7871925891981100273, 7278664212909195730, 2311093096242104527],
    [18005418616282090415, 15576438160720525807, 17726380950765014041, 586666602765006680],
    [16565550768397575341, 2020929750144492452, 1410603232197209768, 2668955744112673211],
    [4237843246993143475, 16049208306686012621, 16255345757249790446, 1894568246696127716],
    [14800947914661045947, 17154969448675598972, 2850544392659101316, 2712594106208049938],
    [8181027053927938644, 18021439195250615183, 11212235760208429490, 567213760585872089],
    [13624033816227346268, 4169601791260933441, 3429464486350164821, 401983439042744870],
    [6263741246179719234, 10788601501711948633, 8749921289808148917, 2801746585553330450],
    [12769144857084925259, 18344191391499884572, 764311096636231278, 2990535145009581252],
    [5305878330428444382, 8053636284319864927, 10138077268953994545, 1081422994864271852],
    [15707650578550343152, 12072900675030156560, 8071569722115328566, 1756484493678642865],
    [11790191611758152980, 6343432735177281837, 13545786186528022215, 518855318833427852],
    [11327724316588873252, 5178948202190861481, 236513524920919324, 116257057088645742],
    [12612299169294040669, 11554739275749238468, 17707711585901173568, 3164398906309830245],
    [13837798785078447527, 10805584042497499142, 13074800071193501283, 1986357644498307576],
    [1749497652048440958, 15616642939589976852, 4759284726231031849, 113483065750996097],
    [5621124641520836211, 3834061754940858631, 8441908693733443662, 1361470217726932599],
    [14931031018585912305, 17379154952083303437, 8296553189160346958, 2731328283741883148],
    [16054887494068740820, 8540693285554871837, 3416127536271369627, 1696891933048307281],
    [18081711238911243564, 10703738399929802509, 14059745812023903234, 3122833143819019816],
    [17259475827435575131, 15506208033562879117, 13934959152216549583, 1471728044913703832],
    [15176346165877314419, 173608754132356420, 6382413708583066742, 42000341103623909],
    [16506862493907066292, 7353248954032331898, 8377384179345429696, 368265804148652425],
    [8031903935837660639, 18337085367626370871, 3098610599104502512, 2056976715448611146],
    [15722471484612216618, 5142387709257827438, 6128644560829868977, 1662662235676804166],
    [4251127333820774693, 7798082296646129076, 16039029898297874182, 2032077195433650519],
    [18216981324708702486, 16564743968791310032, 13194422549619305017, 2770479777972530608],
    [1399693492489740714, 9742692980463556791, 4718812226427439273, 1180883672886694082],
    [2757919807022821607, 10415979907392884307, 7034457183581202014, 799104554032376053],
    [17932033664882204776, 15159913126551348043, 17087300705474533010, 11222886469698168],
    [17655843879022311148, 15102489663831680615, 131005390805611631, 246212393762158451],
    [5801041412609236588, 10433715192001313341, 2640211307484255519, 331772082415582407],
    [6466164949923466313, 17430238980025496016, 17623936589295047864, 1238459069938047737],
    [3676712089653671271, 18038754395438470348, 6852402990074556614, 2534187510793578285],
    [8161058406159725893, 6278662234725865519, 1376443808153743880, 390847645692608939],
    [15772356897706506578, 13446443978764761165, 7170316157533924116, 1462783139136035153],
    [10179756390246397103, 11757273450509185724, 17214957577975704800, 2099146736469805030],
    [17759329837394207846, 12172812669103061438, 3776797374300932000, 1688674755959437709],
    [7280660859427541835, 14007944100542814061, 17113461613463159728, 227942265518886639],
    [1662353633779152251, 13639813389663371618, 1884914318728355136, 1148181445904581133],
    [12468976938706758273, 6974111850755807695, 2964862210755167155, 612920642609519251],
    [979479150604999431, 17382370070336944746, 5964037610929984023, 146950327949760846],
    [2619795151369208751, 8671779290859883436, 16846287263611019424, 684788196204906598],
    [9957451771757562052, 8489187461546015620, 1327251536917441905, 1509477104244751897],
    [8836279873641853266, 4973697061937880693, 7653255830802847282, 1234672297996954220],
    [225899462800228859, 15872251251753512487, 1073232304173250435, 2288185583276436885],
    [11212018451651786569, 7030274873323232126, 1445814743994325556, 541991329424342036],
    [15590002396090942944, 11182794591984585829, 6096853301225178907, 1812774208836812498],
    [17713480380931175896, 12642083716717252857, 6339270560976965574, 398410426758034296],
    [13414564379630057963, 7512847729101999644, 8264121709289709449, 3485833568505185549],
    [15464562358060902286, 13797925323218642338, 8074067680188171498, 2843702021517365300],
    [18127425242955685520, 6739156278564427910, 876488626487884117, 2935731270608132093],
    [9831113689885486356, 9163674369416562207, 18330867672658783606, 2988448613008154698],
    [10586992977359388022, 18424491672067947122, 2516880425417489719, 2496797076298951066],
    [5262412681894780066, 10323857882670875385, 4286685558633910269, 2309581776952187525],
    [9741354413656546851, 9068505544060273694, 11613630016068703317, 1782806069318027792],
    [17532808545444923772, 16766887480790426459, 11821942689301990884, 1328549805937088707],
    [9193752296378055906, 6175958688600723872, 1658291901661934206, 392088376680042281],
    [117512391887065067, 5858566605739377875, 6193703149316492766, 632826120073343574],
    [13779548050027524152, 14340783017810403563, 11869792329558081950, 513742035022467958],
    [17156138187704857056, 14460893500693034299, 7979110063105415439, 2938244191868151091],
    [8891127874813479206, 9550603586865712506, 14850877587871392184, 106131985723419581],
    [14295982843167548670, 4362313656366743839, 13610113569382935037, 706520286713576336],
    [2862274455848052319, 14818651028328263868, 391271411827981876, 2323511582350294367],
    [13329810362016986319, 8569491056958322963, 13567469303412157782, 2492628117567295677],
    [9000597449561977829, 8490204288994734758, 1727498278415194025, 64176240662500512],
    [14152428280997938362, 12605173083585582050, 8667254612055674961, 2459334410522859366],
    [1798090268250354471, 7123560725589767026, 3502855771265683577, 2228378758446453830],
    [9141210733337821027, 11225291028033892257, 9859508416620484656, 2005558621248500456],
    [5004447926112656753, 81985937198809239, 16352173306585251869, 2796045848858300692],
    [16791166537028787458, 18391249176720080624, 11212451197171056687, 2150786586271619554],
    [6278970624191498946, 10529137797064204301, 5298667806652309140, 1167995932381024997],
    [13889347000182507715, 9132487987376697521, 10087947545383188280, 2062954890945799465],
    [2462485960569366850, 438389179672656279, 17234801439311041669, 635477204596330922],
    [561582991030389148, 17797163465889732101, 10742992354639146246, 3267775005364062854],
    [4415949425534831794, 8140444938843818393, 12067792397960594596, 1851840391118491823],
    [6477956673468331661, 7683465989741554714, 13482140210776383628, 1987153096468771335],
    [5161270754667796489, 14622888943735411747, 16033249854429531275, 3425908777981396106],
    [14715428634473837792, 7628703291537326493, 8511672311759005265, 2565634043455925746],
    [517318656750581939, 18362199803775210391, 1540522466121873674, 1324266276882651442],
];

const M_T8: [[u64; 4]; 64] = [
    [7698982539973574439, 8112196319965181985, 8104529470239255313, 1919892921552380469],
    [5759157280296519236, 857405202803841397, 10296318017519522657, 1017618134081329759],
    [8387718556547505972, 15862310000804313, 2480456814254692425, 876385620923669119],
    [13326626156573908641, 6796648063881873454, 16240592280767148599, 1864614044627822197],
    [11645490289399468693, 6494374480454944867, 17174207132927913383, 230777123585058973],
    [17590889898728882489, 5840428776572984175, 17006777544747500761, 1820767921777343437],
    [1830174992275560947, 10855698617160712211, 326839526839937077, 2871047704528175869],
    [12858699558357712499, 11728824413249677333, 7764240285435778231, 3157122312181483436],
    [13927636096212875032, 7725244757785847416, 5609269748423451985, 2687383606964405233],
    [1419375049174763338, 63776939557519589, 11674154849748088369, 2344622337626361001],
    [17908430873004235971, 10430991775202647758, 11284871003384948955, 999423704598732606],
    [4137937508734964079, 17561604990410199605, 10653715533046078420, 1230829677397046532],
    [6195287554501146687, 1073096437508537523, 16036752341142292464, 3353833346443404189],
    [2364571196877341970, 9189693918934651011, 5873861549230205322, 2370806971829242634],
    [15756370234036179942, 6850955371379480021, 13940513670713378485, 2603323656180076026],
    [10933333177922954147, 2024483767041896931, 10546015955691150883, 1710610463038147993],
    [9951042844053021545, 3438234409941961293, 18305221950472113596, 2812237320945998074],
    [15269595345386706896, 6569554656423720408, 11990897114481532775, 1188104751926362181],
    [10360969609387117399, 5360142455003056994, 1554475827745700774, 340419972951289076],
    [3306883843281026009, 1342864761511853817, 9249672749703752345, 2235023094847873478],
    [2588071778221988371, 8190775520663641053, 13330942698360803077, 2856047378020851437],
    [15837749118519005299, 5213229682417587793, 4753692444392803757, 223784681696588242],
    [4129952230553614148, 16410854157088223742, 13579655470827611873, 2513063824208875103],
    [6624681805474591834, 4963875180783567600, 12567231208165243491, 2229060634115278414],
    [14437681743959906379, 5651990412197271119, 17026624751267205933, 3169471466698288810],
    [4965836181798275579, 7483837549492589189, 1871030991694985394, 150361428793192146],
    [5923793774924811286, 5477851143471086444, 17142368143342922057, 2920876841757274751],
    [8044283095154668930, 5291805815478087034, 5074306202162584065, 1981852066300652591],
    [18346628644377074442, 18386362808315777176, 10881069981594030308, 3047734985120497245],
    [4134725893027032342, 14074525786890072279, 17927622659651096881, 2180620914582805220],
    [7982069403106813577, 18294153465182772622, 6482732170408295655, 2690401086264942270],
    [17382573691949307560, 2979177317319781001, 3620638240125271564, 3246403194350868162],
    [3531183157400007229, 8707009396208571524, 2083673509545323325, 1586967016381685637],
    [10013556679191130559, 11283237535593372229, 7178358559107925521, 2828577489054671815],
    [7772413855647242787, 1625771078972963580, 17691006133923998230, 2452426602102310826],
    [12717001073595992573, 13390304832749201012, 6840858844568564304, 2018165529627182216],
    [3490126654609679688, 11579625906529930490, 4075322902249924561, 2237786275184296644],
    [15570090923962275727, 12950409578324982828, 11439967579048986076, 1846408495170362983],
    [18148345016245708687, 11230132087940279214, 10563646026117394320, 736568765304732208],
    [4614705391888946463, 15399225232752422862, 11258270771893861795, 1840083213380385835],
    [13554834801744639856, 3029540102808548934, 16485076133316850173, 65075796687373314],
    [2409752390730984224, 1350319031896244099, 13138344670295861464, 1707437289273247094],
    [7062334080204073833, 199334362712701797, 15732756724522086809, 3397075356495344142],
    [9755895214909954204, 16537965548557497797, 6301655826252513559, 3310572328773597367],
    [8088069664608950481, 15817457957268858068, 8701247539893075992, 1584869317748513064],
    [4967162706958120959, 1327109617665245171, 10881255061994430323, 789700983364053072],
    [10182162546435689703, 8809995489362244018, 17556416940360665054, 832749755706758484],
    [9901564790845760151, 1862767175757062679, 4190622954485152565, 570775339292055145],
    [7169344967239091692, 8842385722702832433, 11569504801225262525, 340401971094034476],
    [7998291772064430908, 9282967859451777314, 12238467562708670885, 472471567865868979],
    [5797622235354542035, 12564245487240192385, 7370839608863595848, 235542635572555859],
    [14891410244294326347, 10325717283148092970, 13670142029991803546, 567678547651383647],
    [5797414575854099958, 16782337434217207807, 17655122302743878990, 2463151504249287858],
    [6092607120146277889, 15149213248580973303, 13138076982004158985, 3261460126518429277],
    [8972227487681261116, 6556523079122776216, 1053298706098154997, 3354733106714752208],
    [15302199249017847393, 5531091257341226273, 1336696001322386582, 2518000713112008086],
    [17563087222036015820, 14715779049777418464, 6698901448650022420, 1137665321783497329],
    [11843035247630417618, 9423375191022539111, 7824027481589339518, 3412085902217520265],
    [328036895794269326, 9887048361356649447, 11408405792603257024, 3229533228678951296],
    [1533407463283740381, 11955504353081720131, 16581848506024531909, 2665895161944335370],
    [1155332998160347412, 7696089458501254954, 4726599165070093607, 1344461980674159688],
    [11542989011830303852, 9456824946761550140, 1987220851127417944, 789201955078953616],
    [11579033906566466215, 8786689633373017531, 10104669292495618529, 2878976117563149706],
    [10568123772634788304, 1303417413732746717, 6305917206987735359, 3128660075931242910],
];

/// The shipped additive-constant data of width 8.
pub closed spec fn c8_data() -> Seq<[u64; 4]> {
    C_T8@
}

/// The shipped mixing-matrix data of width 8, row-major.
pub closed spec fn m8_data() -> Seq<[u64; 4]> {
    M_T8@
}

/// The additive round constants of width 8, pinned to the shipped data.
pub fn c_t8() -> (v: Vec<[u64; 4]>)
    ensures
        v@ == c8_data(),
        v@.len() == 576,
{
    slice_to_vec(C_T8.as_slice())
}

/// The mixing matrix of width 8, pinned to the shipped data.
pub fn m_t8() -> (v: Vec<[u64; 4]>)
    ensures
        v@ == m8_data(),
        v@.len() == 64,
{
    slice_to_vec(M_T8.as_slice())
}

} // verus!
